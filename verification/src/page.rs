//! The pages of the client: home, users, transactions and statistics.
use crate::fields::{after_backspace, after_push, InputConstraint, TextInput};
use crate::key::{Key, KeyCode};
use crate::message::Message;
use crate::model::{uuid_text, Stats, User, UserId};
use crate::request::ApiRequest;
use crate::text::{
    compare_text, contains_spec, contains_text, decimal_spec, int_order,
    lemma_text_order_antisymmetric, lemma_text_order_equal, lemma_text_order_less_transitive,
    lowercase_of, order_i32, order_u128, order_u32, text_order, to_lowercase, u32_to_text, Order,
};
use vstd::prelude::*;

verus! {

/// Which page is shown.
#[derive(Clone, Copy, Debug, PartialEq, Eq, Structural)]
pub enum PageId {
    Home,
    Users,
    Transactions,
    Stats,
}

impl PageId {
    pub open spec fn label_text(self) -> Seq<char> {
        match self {
            PageId::Home => "nav.home"@,
            PageId::Users => "nav.users"@,
            PageId::Transactions => "nav.transactions"@,
            PageId::Stats => "nav.stats"@,
        }
    }

    /// The translation key of the page's navigation label.
    pub fn label(self) -> (r: &'static str)
        ensures
            r@ == self.label_text(),
    {
        match self {
            PageId::Home => "nav.home",
            PageId::Users => "nav.users",
            PageId::Transactions => "nav.transactions",
            PageId::Stats => "nav.stats",
        }
    }

    pub open spec fn of_key(code: KeyCode) -> Option<PageId> {
        match code {
            KeyCode::Char('1') => Some(PageId::Home),
            KeyCode::Char('2') => Some(PageId::Users),
            KeyCode::Char('3') => Some(PageId::Transactions),
            KeyCode::Char('4') => Some(PageId::Stats),
            _ => None,
        }
    }

    /// The page that a digit key navigates to.
    pub fn from_key(code: KeyCode) -> (r: Option<PageId>)
        ensures
            r == PageId::of_key(code),
    {
        match code {
            KeyCode::Char('1') => Some(PageId::Home),
            KeyCode::Char('2') => Some(PageId::Users),
            KeyCode::Char('3') => Some(PageId::Transactions),
            KeyCode::Char('4') => Some(PageId::Stats),
            _ => None,
        }
    }
}

/// What a page did with a key.
#[derive(Debug)]
pub enum PageResult<T> {
    Consumed,
    Message(Message),
    Unhandled(T),
}

/// The home page.
#[derive(Clone, Copy, Debug, Default)]
pub struct HomePage;

/// The transactions page.
#[derive(Clone, Copy, Debug, Default)]
pub struct TransactionsPage;

/// The statistics page.
#[derive(Clone, Copy, Debug)]
pub struct StatsPage {
    pub stats: Option<Stats>,
    pub loading: bool,
}

impl StatsPage {
    pub fn new() -> (r: StatsPage)
        ensures
            r == (StatsPage { stats: None, loading: true }),
    {
        StatsPage { stats: None, loading: true }
    }

    pub fn set_stats(&mut self, stats: Stats)
        ensures
            *final(self) == (StatsPage { stats: Some(stats), loading: false }),
    {
        self.stats = Some(stats);
        self.loading = false;
    }

    pub fn finish_loading(&mut self)
        ensures
            *final(self) == (StatsPage { loading: false, ..*old(self) }),
    {
        self.loading = false;
    }

    /// `r` reloads the statistics; other keys are handed back.
    pub fn handle_key(&mut self, key: Key) -> (r: PageResult<Key>)
        ensures
            key.code == KeyCode::Char('r') ==> (r matches PageResult::Message(
                Message::ApiRequest(ApiRequest::Stats),
            )) && *final(self) == (StatsPage { loading: true, ..*old(self) }),
            key.code != KeyCode::Char('r') ==> r == PageResult::Unhandled(key) && *final(self)
                == *old(self),
    {
        if key.code == KeyCode::Char('r') {
            self.loading = true;
            return PageResult::Message(Message::ApiRequest(ApiRequest::Stats));
        }
        PageResult::Unhandled(key)
    }
}

/// The column the users table is sorted by.
#[derive(Clone, Copy, Debug, PartialEq, Eq, Structural)]
pub enum UserSort {
    Name,
    Username,
    Program,
    Card,
    Role,
    Birthdate,
    Balance,
    Spent,
}

impl UserSort {
    /// The column's place in the cycle of columns.
    pub open spec fn index(self) -> int {
        match self {
            UserSort::Name => 0,
            UserSort::Username => 1,
            UserSort::Program => 2,
            UserSort::Card => 3,
            UserSort::Role => 4,
            UserSort::Birthdate => 5,
            UserSort::Balance => 6,
            UserSort::Spent => 7,
        }
    }

    /// The next column, wrapping from the last to the first.
    pub fn next(self) -> (r: UserSort)
        ensures
            r.index() == (self.index() + 1) % 8,
    {
        match self {
            UserSort::Name => UserSort::Username,
            UserSort::Username => UserSort::Program,
            UserSort::Program => UserSort::Card,
            UserSort::Card => UserSort::Role,
            UserSort::Role => UserSort::Birthdate,
            UserSort::Birthdate => UserSort::Balance,
            UserSort::Balance => UserSort::Spent,
            UserSort::Spent => UserSort::Name,
        }
    }

    /// The previous column, wrapping from the first to the last.
    pub fn previous(self) -> (r: UserSort)
        ensures
            r.index() == (self.index() + 7) % 8,
    {
        match self {
            UserSort::Name => UserSort::Spent,
            UserSort::Username => UserSort::Name,
            UserSort::Program => UserSort::Username,
            UserSort::Card => UserSort::Program,
            UserSort::Role => UserSort::Card,
            UserSort::Birthdate => UserSort::Role,
            UserSort::Balance => UserSort::Birthdate,
            UserSort::Spent => UserSort::Balance,
        }
    }
}

/// Moving to the next sort column and back, or back and then forward,
/// returns to the same column; the index determines the column.
pub proof fn sort_cycle_is_reversible(a: UserSort, b: UserSort, c: UserSort)
    requires
        b.index() == (a.index() + 1) % 8,
        c.index() == (b.index() + 7) % 8,
    ensures
        c == a,
{
}

/// The sort direction.
#[derive(Clone, Copy, Debug, PartialEq, Eq, Structural)]
pub enum SortOrder {
    Ascending,
    Descending,
}

impl SortOrder {
    pub open spec fn toggled(self) -> SortOrder {
        match self {
            SortOrder::Ascending => SortOrder::Descending,
            SortOrder::Descending => SortOrder::Ascending,
        }
    }

    pub fn toggle(self) -> (r: SortOrder)
        ensures
            r == self.toggled(),
    {
        match self {
            SortOrder::Ascending => SortOrder::Descending,
            SortOrder::Descending => SortOrder::Ascending,
        }
    }
}

/// Toggling the sort direction twice gives the direction back.
pub proof fn toggle_twice_is_identity(o: SortOrder)
    ensures
        o.toggled().toggled() == o,
{
}

// ---------------------------------------------------------------------
// Search and ordering of users.
// ---------------------------------------------------------------------
/// The texts of a user that the search looks in.
pub open spec fn search_fields(u: User) -> Seq<Seq<char>> {
    seq![
        uuid_text(u.id.0),
        u.name@,
        u.username@,
        u.program@,
        decimal_spec(u.card_number as nat),
        u.role.text(),
        u.birthdate.text(),
        u.comments@,
        decimal_spec(u.balance.0 as nat),
        decimal_spec(u.spent.0 as nat),
    ]
}

/// Whether some field of the user, lower-cased, contains the query.
pub open spec fn matches_search_spec(u: User, query: Seq<char>) -> bool {
    exists|i: int|
        0 <= i < 10 && contains_spec(lowercase_of(#[trigger] search_fields(u)[i]), query)
}

/// The users the query selects, in their original order.
pub open spec fn filtered(users: Seq<User>, query: Seq<char>) -> Seq<User>
    decreases users.len(),
{
    if users.len() == 0 {
        users
    } else {
        let rest = filtered(users.drop_last(), query);
        if query.len() == 0 || matches_search_spec(users.last(), query) {
            rest.push(users.last())
        } else {
            rest
        }
    }
}

/// How two users compare in one column.
pub open spec fn field_order(l: User, r: User, f: UserSort) -> Order {
    match f {
        UserSort::Name => text_order(lowercase_of(l.name@), lowercase_of(r.name@)),
        UserSort::Username => text_order(lowercase_of(l.username@), lowercase_of(r.username@)),
        UserSort::Program => text_order(lowercase_of(l.program@), lowercase_of(r.program@)),
        UserSort::Card => int_order(l.card_number as int, r.card_number as int),
        UserSort::Role => text_order(l.role.text(), r.role.text()),
        UserSort::Birthdate => int_order(
            l.birthdate.days_from_ce as int,
            r.birthdate.days_from_ce as int,
        ),
        UserSort::Balance => int_order(l.balance.0 as int, r.balance.0 as int),
        UserSort::Spent => int_order(l.spent.0 as int, r.spent.0 as int),
    }
}

/// The order of one column in the chosen direction.
pub open spec fn directed_order(l: User, r: User, f: UserSort, o: SortOrder) -> Order {
    if o == SortOrder::Ascending {
        field_order(l, r, f)
    } else {
        field_order(l, r, f).reversed()
    }
}

/// The table order: the column in the chosen direction, then the identifier.
pub open spec fn user_order(l: User, r: User, f: UserSort, o: SortOrder) -> Order {
    let directed = directed_order(l, r, f, o);
    if directed == Order::Equal {
        int_order(l.id.0 as int, r.id.0 as int)
    } else {
        directed
    }
}

/// The place where a stable sort puts `x` among the already sorted `s`:
/// before the first element that orders after it.
pub open spec fn insert_position(s: Seq<User>, x: User, f: UserSort, o: SortOrder, from: int) -> int
    decreases s.len() - from,
{
    if from < 0 || from >= s.len() {
        s.len() as int
    } else if user_order(s[from], x, f, o) == Order::Greater {
        from
    } else {
        insert_position(s, x, f, o, from + 1)
    }
}

/// Each column orders users as a total preorder: comparing the other way
/// round reverses the order, users that compare equal compare alike with
/// every other user, and the strict order is transitive.
proof fn lemma_field_order(a: User, b: User, c: User, f: UserSort)
    ensures
        field_order(a, b, f) == field_order(b, a, f).reversed(),
        field_order(a, b, f) == Order::Equal ==> field_order(a, c, f) == field_order(b, c, f),
        field_order(a, b, f) == Order::Less && field_order(b, c, f) == Order::Less ==> field_order(
            a,
            c,
            f,
        ) == Order::Less,
{
    let (ka, kb, kc) = match f {
        UserSort::Name => (lowercase_of(a.name@), lowercase_of(b.name@), lowercase_of(c.name@)),
        UserSort::Username => (
            lowercase_of(a.username@),
            lowercase_of(b.username@),
            lowercase_of(c.username@),
        ),
        UserSort::Program => (
            lowercase_of(a.program@),
            lowercase_of(b.program@),
            lowercase_of(c.program@),
        ),
        _ => (a.role.text(), b.role.text(), c.role.text()),
    };
    lemma_text_order_antisymmetric(ka, kb);
    lemma_text_order_equal(ka, kb);
    if text_order(ka, kb) == Order::Less && text_order(kb, kc) == Order::Less {
        lemma_text_order_less_transitive(ka, kb, kc);
    }
}

proof fn lemma_directed_order(a: User, b: User, c: User, f: UserSort, o: SortOrder)
    ensures
        directed_order(a, b, f, o) == directed_order(b, a, f, o).reversed(),
        directed_order(a, b, f, o) == Order::Equal ==> directed_order(a, c, f, o)
            == directed_order(b, c, f, o),
        directed_order(a, b, f, o) == Order::Less && directed_order(b, c, f, o) == Order::Less
            ==> directed_order(a, c, f, o) == Order::Less,
{
    lemma_field_order(a, b, c, f);
    lemma_field_order(a, c, b, f);
    lemma_field_order(b, a, c, f);
    lemma_field_order(b, c, a, f);
    lemma_field_order(c, a, b, f);
    lemma_field_order(c, b, a, f);
}

/// Comparing two users the other way round reverses the table order.
proof fn lemma_user_order_antisymmetric(a: User, b: User, f: UserSort, o: SortOrder)
    ensures
        user_order(a, b, f, o) == user_order(b, a, f, o).reversed(),
{
    lemma_directed_order(a, b, a, f, o);
}

/// The table order is transitive.
proof fn lemma_user_order_transitive(a: User, b: User, c: User, f: UserSort, o: SortOrder)
    requires
        user_order(a, b, f, o) != Order::Greater,
        user_order(b, c, f, o) != Order::Greater,
    ensures
        user_order(a, c, f, o) != Order::Greater,
{
    lemma_directed_order(a, b, c, f, o);
    lemma_directed_order(b, c, a, f, o);
    lemma_directed_order(c, a, b, f, o);
    lemma_directed_order(a, c, b, f, o);
    lemma_directed_order(b, a, c, f, o);
    lemma_directed_order(c, b, a, f, o);
}

/// Users in the table order: no user stands after one that orders after it.
pub open spec fn in_table_order(s: Seq<User>, f: UserSort, o: SortOrder) -> bool {
    forall|i: int, j: int|
        0 <= i < j < s.len() ==> user_order(#[trigger] s[i], #[trigger] s[j], f, o) != Order::Greater
}

proof fn lemma_insert_position_facts(s: Seq<User>, x: User, f: UserSort, o: SortOrder, from: int)
    requires
        0 <= from <= s.len(),
    ensures
        forall|k: int|
            from <= k < insert_position(s, x, f, o, from) ==> user_order(#[trigger] s[k], x, f, o)
                != Order::Greater,
        insert_position(s, x, f, o, from) < s.len() ==> user_order(
            s[insert_position(s, x, f, o, from)],
            x,
            f,
            o,
        ) == Order::Greater,
    decreases s.len() - from,
{
    if from < s.len() && user_order(s[from], x, f, o) != Order::Greater {
        lemma_insert_position_facts(s, x, f, o, from + 1);
    }
}

proof fn lemma_insert_keeps_table_order(s: Seq<User>, x: User, f: UserSort, o: SortOrder)
    requires
        in_table_order(s, f, o),
    ensures
        in_table_order(s.insert(insert_position(s, x, f, o, 0), x), f, o),
{
    let p = insert_position(s, x, f, o, 0);
    lemma_insert_position_in_range(s, x, f, o, 0);
    lemma_insert_position_facts(s, x, f, o, 0);
    let t = s.insert(p, x);
    assert forall|i: int, j: int| 0 <= i < j < t.len() implies user_order(
        #[trigger] t[i],
        #[trigger] t[j],
        f,
        o,
    ) != Order::Greater by {
        if j < p {
            assert(t[i] == s[i] && t[j] == s[j]);
        } else if j == p {
            assert(t[i] == s[i]);
        } else if i < p {
            assert(t[i] == s[i] && t[j] == s[j - 1]);
        } else if i == p {
            assert(t[j] == s[j - 1]);
            lemma_user_order_antisymmetric(s[p], x, f, o);
            if j - 1 > p {
                lemma_user_order_transitive(x, s[p], s[j - 1], f, o);
            }
        } else {
            assert(t[i] == s[i - 1] && t[j] == s[j - 1]);
        }
    }
}

/// Sorting puts the users in the table order and keeps each of them.
proof fn lemma_sorted_users(s: Seq<User>, f: UserSort, o: SortOrder)
    ensures
        in_table_order(sorted_users(s, f, o), f, o),
        sorted_users(s, f, o).to_multiset() == s.to_multiset(),
    decreases s.len(),
{
    if s.len() == 0 {
        assert(sorted_users(s, f, o) == s);
    } else {
        let rest = sorted_users(s.drop_last(), f, o);
        lemma_sorted_users(s.drop_last(), f, o);
        let p = insert_position(rest, s.last(), f, o, 0);
        lemma_insert_position_in_range(rest, s.last(), f, o, 0);
        lemma_insert_keeps_table_order(rest, s.last(), f, o);
        vstd::seq_lib::to_multiset_insert(rest, p, s.last());
        vstd::seq_lib::to_multiset_build(s.drop_last(), s.last());
        assert(s.drop_last().push(s.last()) =~= s);
    }
}

/// Whether the search `query` selects a user: every user when it is
/// empty, otherwise those with a field that contains it.
pub open spec fn selects(query: Seq<char>) -> spec_fn(User) -> bool {
    |u: User| query.len() == 0 || matches_search_spec(u, query)
}

proof fn lemma_filtered_is_filter(users: Seq<User>, query: Seq<char>)
    ensures
        filtered(users, query) == users.filter(selects(query)),
    decreases users.len(),
{
    reveal(Seq::filter);
    if users.len() > 0 {
        lemma_filtered_is_filter(users.drop_last(), query);
    }
}

/// In the table order the users stand by the chosen column's own field:
/// from small to large ascending and from large to small descending;
/// names, usernames and programmes compare lower-cased, roles by their text.
pub proof fn table_order_follows_the_column(s: Seq<User>, f: UserSort, o: SortOrder, i: int, j: int)
    requires
        in_table_order(s, f, o),
        0 <= i < j < s.len(),
    ensures
        ({
            let a = if o == SortOrder::Ascending { s[i] } else { s[j] };
            let b = if o == SortOrder::Ascending { s[j] } else { s[i] };
            &&& f == UserSort::Name ==> text_order(lowercase_of(a.name@), lowercase_of(b.name@))
                != Order::Greater
            &&& f == UserSort::Username ==> text_order(
                lowercase_of(a.username@),
                lowercase_of(b.username@),
            ) != Order::Greater
            &&& f == UserSort::Program ==> text_order(
                lowercase_of(a.program@),
                lowercase_of(b.program@),
            ) != Order::Greater
            &&& f == UserSort::Card ==> a.card_number <= b.card_number
            &&& f == UserSort::Role ==> text_order(a.role.text(), b.role.text()) != Order::Greater
            &&& f == UserSort::Birthdate ==> a.birthdate.days_from_ce <= b.birthdate.days_from_ce
            &&& f == UserSort::Balance ==> a.balance.0 <= b.balance.0
            &&& f == UserSort::Spent ==> a.spent.0 <= b.spent.0
        }),
{
    assert(user_order(s[i], s[j], f, o) != Order::Greater);
    lemma_field_order(s[i], s[j], s[i], f);
}

/// The users a page shows are exactly those its search selects, each as
/// often as in the list, and they stand in the table order: by the chosen
/// column in the chosen direction, then by identifier.
pub proof fn visible_users_are_selected_and_ordered(users: Seq<User>, query: Seq<char>, f: UserSort, o: SortOrder)
    ensures
        visible_spec(users, query, f, o).to_multiset() == users.filter(selects(query)).to_multiset(),
        in_table_order(visible_spec(users, query, f, o), f, o),
{
    lemma_filtered_is_filter(users, query);
    lemma_sorted_users(filtered(users, query), f, o);
}

/// The users sorted stably by the table order.
pub open spec fn sorted_users(s: Seq<User>, f: UserSort, o: SortOrder) -> Seq<User>
    decreases s.len(),
{
    if s.len() == 0 {
        s
    } else {
        let rest = sorted_users(s.drop_last(), f, o);
        rest.insert(insert_position(rest, s.last(), f, o, 0), s.last())
    }
}

/// The users a page shows: those the search selects, sorted.
pub open spec fn visible_spec(users: Seq<User>, query: Seq<char>, f: UserSort, o: SortOrder) -> Seq<User> {
    sorted_users(filtered(users, query), f, o)
}

/// The first position of a user with the identifier.
pub open spec fn position_of(visible: Seq<User>, id: UserId, from: int) -> Option<int>
    decreases visible.len() - from,
{
    if from < 0 || from >= visible.len() {
        None
    } else if visible[from].id == id {
        Some(from)
    } else {
        position_of(visible, id, from + 1)
    }
}

/// The selection after the visible users changed: kept when still visible.
pub open spec fn reconciled(visible: Seq<User>, selected: Option<UserId>) -> Option<UserId> {
    match selected {
        Some(id) => if position_of(visible, id, 0) is Some {
            selected
        } else {
            None
        },
        None => None,
    }
}

/// The selection after moving by `delta` rows, clamped to the table.
pub open spec fn moved(visible: Seq<User>, selected: Option<UserId>, delta: int) -> Option<UserId> {
    if visible.len() == 0 {
        None
    } else {
        let current = match selected {
            Some(id) => position_of(visible, id, 0),
            None => None,
        };
        let next = match current {
            Some(i) => if i + delta < 0 {
                0
            } else if i + delta > visible.len() - 1 {
                visible.len() - 1
            } else {
                i + delta
            },
            None => if delta >= 0 {
                0
            } else {
                visible.len() - 1
            },
        };
        Some(visible[next].id)
    }
}

proof fn lemma_position_in_range(visible: Seq<User>, id: UserId, from: int)
    requires
        0 <= from,
    ensures
        position_of(visible, id, from) matches Some(i) ==> from <= i < visible.len()
            && visible[i].id == id,
        position_of(visible, id, from) is None ==> forall|k: int|
            from <= k < visible.len() ==> #[trigger] visible[k].id != id,
    decreases visible.len() - from,
{
    if 0 <= from < visible.len() && visible[from].id != id {
        lemma_position_in_range(visible, id, from + 1);
    }
}

proof fn lemma_insert_position_in_range(s: Seq<User>, x: User, f: UserSort, o: SortOrder, from: int)
    requires
        0 <= from <= s.len(),
    ensures
        from <= insert_position(s, x, f, o, from) <= s.len(),
    decreases s.len() - from,
{
    if from < s.len() && user_order(s[from], x, f, o) != Order::Greater {
        lemma_insert_position_in_range(s, x, f, o, from + 1);
    }
}

/// The text of a number in a search field.
fn number_text(n: u32) -> (r: String)
    ensures
        r@ == decimal_spec(n as nat),
{
    u32_to_text(n)
}

/// Whether a field of the user, lower-cased, contains the (lower-case) query.
pub fn matches_search(user: &User, query: &str) -> (r: bool)
    ensures
        r == matches_search_spec(*user, query@),
{
    let mut fields: Vec<String> = Vec::new();
    fields.push(user.id.to_text());
    fields.push(user.name.clone());
    fields.push(user.username.clone());
    fields.push(user.program.clone());
    fields.push(number_text(user.card_number));
    fields.push(user.role.to_text());
    fields.push(user.birthdate.to_text());
    fields.push(user.comments.clone());
    fields.push(number_text(user.balance.0));
    fields.push(number_text(user.spent.0));
    let ghost expected = search_fields(*user);
    assert(fields@.len() == 10);
    assert forall|k: int| 0 <= k < 10 implies #[trigger] fields@[k]@ == expected[k] by {}
    let mut i: usize = 0;
    while i < fields.len()
        invariant
            i <= fields@.len(),
            fields@.len() == 10,
            expected == search_fields(*user),
            forall|k: int| 0 <= k < 10 ==> #[trigger] fields@[k]@ == expected[k],
            forall|k: int| 0 <= k < i ==> !contains_spec(lowercase_of(#[trigger] expected[k]), query@),
        decreases fields.len() - i,
    {
        let lowered = to_lowercase(fields[i].as_str());
        if contains_text(lowered.as_str(), query) {
            assert(contains_spec(lowercase_of(search_fields(*user)[i as int]), query@));
            return true;
        }
        i = i + 1;
    }
    assert(!matches_search_spec(*user, query@)) by {
        if matches_search_spec(*user, query@) {
            let k = choose|k: int|
                0 <= k < 10 && contains_spec(lowercase_of(#[trigger] search_fields(*user)[k]), query@);
            assert(!contains_spec(lowercase_of(expected[k]), query@));
        }
    }
    false
}

/// How two users compare in one column.
pub fn compare(left: &User, right: &User, field: UserSort) -> (r: Order)
    ensures
        r == field_order(*left, *right, field),
{
    match field {
        UserSort::Name => compare_text(
            to_lowercase(left.name.as_str()).as_str(),
            to_lowercase(right.name.as_str()).as_str(),
        ),
        UserSort::Username => compare_text(
            to_lowercase(left.username.as_str()).as_str(),
            to_lowercase(right.username.as_str()).as_str(),
        ),
        UserSort::Program => compare_text(
            to_lowercase(left.program.as_str()).as_str(),
            to_lowercase(right.program.as_str()).as_str(),
        ),
        UserSort::Card => order_u32(left.card_number, right.card_number),
        UserSort::Role => compare_text(left.role.to_text().as_str(), right.role.to_text().as_str()),
        UserSort::Birthdate => order_i32(left.birthdate.days_from_ce, right.birthdate.days_from_ce),
        UserSort::Balance => order_u32(left.balance.0, right.balance.0),
        UserSort::Spent => order_u32(left.spent.0, right.spent.0),
    }
}

/// The table order of two users.
pub fn order_users(left: &User, right: &User, field: UserSort, order: SortOrder) -> (r: Order)
    ensures
        r == user_order(*left, *right, field, order),
{
    let base = compare(left, right, field);
    let directed = match order {
        SortOrder::Ascending => base,
        SortOrder::Descending => base.reverse(),
    };
    match directed {
        Order::Equal => order_u128(left.id.0, right.id.0),
        _ => directed,
    }
}

/// The users table: all users, a search query, a sort column and
/// direction, and the selected user.
#[derive(Debug)]
pub struct UsersPage {
    pub users: Vec<User>,
    pub search: TextInput,
    pub search_active: bool,
    pub sort_field: UserSort,
    pub sort_order: SortOrder,
    pub selected_user_id: Option<UserId>,
    pub loading: bool,
}

impl UsersPage {
    /// The users the page shows, in order.
    pub open spec fn visible(self) -> Seq<User> {
        visible_spec(
            self.users@,
            lowercase_of(self.search.text()),
            self.sort_field,
            self.sort_order,
        )
    }

    /// A page with no users yet, waiting for them: no search, sorted by
    /// name ascending, nothing selected.
    pub open spec fn is_fresh(self) -> bool {
        &&& self.users@ == Seq::<User>::empty()
        &&& self.search.is_new(InputConstraint::Any)
        &&& !self.search_active
        &&& self.sort_field == UserSort::Name
        &&& self.sort_order == SortOrder::Ascending
        &&& self.selected_user_id is None
        &&& self.loading
    }

    pub fn new() -> (r: UsersPage)
        ensures
            r.is_fresh(),
    {
        UsersPage {
            users: Vec::new(),
            search: TextInput::new(InputConstraint::Any),
            search_active: false,
            sort_field: UserSort::Name,
            sort_order: SortOrder::Ascending,
            selected_user_id: None,
            loading: true,
        }
    }

    /// Shows a new list of users, keeping the selection if still visible.
    pub fn set_users(&mut self, users: Vec<User>)
        ensures
            *final(self) == (UsersPage {
                users,
                loading: false,
                selected_user_id: reconciled(
                    visible_spec(
                        users@,
                        lowercase_of(old(self).search.text()),
                        old(self).sort_field,
                        old(self).sort_order,
                    ),
                    old(self).selected_user_id,
                ),
                ..*old(self)
            }),
    {
        self.users = users;
        self.loading = false;
        self.reconcile_selection();
    }

    pub fn finish_loading(&mut self)
        ensures
            *final(self) == (UsersPage { loading: false, ..*old(self) }),
    {
        self.loading = false;
    }

    /// The users the search selects, sorted by the table order.
    pub fn visible_users(&self) -> (r: Vec<User>)
        ensures
            r@ == self.visible(),
    {
        let query = to_lowercase(self.search.as_str());
        let query_empty = crate::text::chars_of(query.as_str()).len() == 0;
        let ghost q = lowercase_of(self.search.text());
        let mut out: Vec<User> = Vec::new();
        let n = self.users.len();
        let mut i: usize = 0;
        assert(self.users@.take(0) =~= Seq::<User>::empty());
        while i < n
            invariant
                i <= n,
                n == self.users@.len(),
                query@ == q,
                q == lowercase_of(self.search.text()),
                query_empty == (q.len() == 0),
                out@ == sorted_users(
                    filtered(self.users@.take(i as int), q),
                    self.sort_field,
                    self.sort_order,
                ),
            decreases n - i,
        {
            let user = &self.users[i];
            let ghost prefix = self.users@.take(i as int);
            assert(self.users@.take(i + 1).drop_last() =~= prefix);
            assert(self.users@.take(i + 1).last() == *user);
            if query_empty || matches_search(user, query.as_str()) {
                let ghost sorted = out@;
                let mut pos: usize = 0;
                while pos < out.len()
                    invariant
                        pos <= out@.len(),
                        out@ == sorted,
                        insert_position(sorted, *user, self.sort_field, self.sort_order, 0)
                            == insert_position(
                            sorted,
                            *user,
                            self.sort_field,
                            self.sort_order,
                            pos as int,
                        ),
                    ensures
                        pos <= out@.len(),
                        out@ == sorted,
                        pos == insert_position(sorted, *user, self.sort_field, self.sort_order, 0),
                    decreases out.len() - pos,
                {
                    let o = order_users(&out[pos], user, self.sort_field, self.sort_order);
                    if o == Order::Greater {
                        break;
                    }
                    pos = pos + 1;
                }
                proof {
                    lemma_insert_position_in_range(sorted, *user, self.sort_field, self.sort_order, 0);
                }
                let copy = user.duplicate();
                out.insert(pos, copy);
                proof {
                    let f = filtered(prefix, q);
                    assert(matches_search_spec(*user, q) || q.len() == 0);
                    assert(filtered(self.users@.take(i + 1), q) == f.push(*user));
                    assert(f.push(*user).drop_last() =~= f);
                    assert(f.push(*user).last() == *user);
                }
            } else {
                proof {
                    assert(filtered(self.users@.take(i + 1), q) == filtered(prefix, q));
                }
            }
            i = i + 1;
        }
        assert(self.users@.take(n as int) =~= self.users@);
        out
    }

    /// Drops the selection when the selected user is no longer visible.
    pub fn reconcile_selection(&mut self)
        ensures
            *final(self) == (UsersPage {
                selected_user_id: reconciled(old(self).visible(), old(self).selected_user_id),
                ..*old(self)
            }),
    {
        let visible = self.visible_users();
        match self.selected_user_id {
            Some(id) => {
                let found = position_in(&visible, id);
                if found.is_none() {
                    self.selected_user_id = None;
                }
            },
            None => {},
        }
    }

    /// Moves the selection by `delta` rows within the visible users.
    pub fn move_selection(&mut self, delta: i32)
        ensures
            *final(self) == (UsersPage {
                selected_user_id: moved(old(self).visible(), old(self).selected_user_id, delta as int),
                ..*old(self)
            }),
    {
        let visible = self.visible_users();
        let len = visible.len();
        if len == 0 {
            self.selected_user_id = None;
            return;
        }
        let current = match self.selected_user_id {
            Some(id) => position_in(&visible, id),
            None => None,
        };
        let next: usize = match current {
            Some(i) => {
                if delta >= 0 {
                    let d = delta as usize;
                    if d >= len - 1 - i {
                        len - 1
                    } else {
                        i + d
                    }
                } else {
                    let d = (0i64 - delta as i64) as usize;
                    if d > i {
                        0
                    } else {
                        i - d
                    }
                }
            },
            None => {
                if delta >= 0 {
                    0
                } else {
                    len - 1
                }
            },
        };
        self.selected_user_id = Some(visible[next].id);
    }

    /// The position of the selected user among the given users.
    pub fn selected_visible_index(&self, visible: &Vec<User>) -> (r: Option<usize>)
        ensures
            r == (match self.selected_user_id {
                Some(id) => match position_of(visible@, id, 0) {
                    Some(i) => Some(i as usize),
                    None => None,
                },
                None => None,
            }),
    {
        match self.selected_user_id {
            Some(id) => position_in(visible, id),
            None => None,
        }
    }

    pub open spec fn key_step(self, key: Key, next: Self, r: PageResult<Key>) -> bool {
        if self.search_active {
            match key.code {
                KeyCode::Esc | KeyCode::Char('/') | KeyCode::Enter => r is Consumed && next == (
                UsersPage {
                    search_active: false,
                    selected_user_id: reconciled(self.visible(), self.selected_user_id),
                    ..self
                }),
                KeyCode::Backspace | KeyCode::Char(_) => {
                    let text = match key.code {
                        KeyCode::Char(c) => after_push(
                            self.search.text(),
                            self.search.constraint_of(),
                            c,
                        ),
                        _ => after_backspace(self.search.text()),
                    };
                    &&& r is Consumed
                    &&& self.search.edited(next.search, text)
                    &&& next == (UsersPage {
                        search: next.search,
                        selected_user_id: reconciled(
                            visible_spec(
                                self.users@,
                                lowercase_of(text),
                                self.sort_field,
                                self.sort_order,
                            ),
                            self.selected_user_id,
                        ),
                        ..self
                    })
                },
                KeyCode::Up => r is Consumed && next == (UsersPage {
                    selected_user_id: moved(self.visible(), self.selected_user_id, -1),
                    ..self
                }),
                KeyCode::Down => r is Consumed && next == (UsersPage {
                    selected_user_id: moved(self.visible(), self.selected_user_id, 1),
                    ..self
                }),
                _ => next == self && r == PageResult::Unhandled(key),
            }
        } else {
            match key.code {
                KeyCode::Char('/') => r is Consumed && next == (UsersPage {
                    search_active: true,
                    ..self
                }),
                KeyCode::Up => r is Consumed && next == (UsersPage {
                    selected_user_id: moved(self.visible(), self.selected_user_id, -1),
                    ..self
                }),
                KeyCode::Down => r is Consumed && next == (UsersPage {
                    selected_user_id: moved(self.visible(), self.selected_user_id, 1),
                    ..self
                }),
                KeyCode::Tab => r is Consumed && next.sort_field.index() == (if key.shift {
                    (self.sort_field.index() + 7) % 8
                } else {
                    (self.sort_field.index() + 1) % 8
                }) && next == (UsersPage { sort_field: next.sort_field, ..self }),
                KeyCode::BackTab => r is Consumed && next.sort_field.index() == (
                self.sort_field.index() + 7) % 8 && next == (UsersPage {
                    sort_field: next.sort_field,
                    ..self
                }),
                KeyCode::Char('s') => r is Consumed && next == (UsersPage {
                    sort_order: self.sort_order.toggled(),
                    ..self
                }),
                KeyCode::Char('r') => (r matches PageResult::Message(
                    Message::ApiRequest(ApiRequest::ListUsers),
                )) && next == (UsersPage { loading: true, ..self }),
                KeyCode::Enter => next == self && match self.selected_user_id {
                    Some(id) => match position_of(self.visible(), id, 0) {
                        Some(i) => r matches PageResult::Message(Message::OpenUser(u)) && u
                            == self.visible()[i],
                        None => r == PageResult::Unhandled(key),
                    },
                    None => r == PageResult::Unhandled(key),
                },
                _ => next == self && r == PageResult::Unhandled(key),
            }
        }
    }

    /// Keys of the users table: `/` searches, arrows move the selection,
    /// Tab and Shift-Tab change the sort column, `s` the direction, `r`
    /// reloads, Enter opens the selected user.  While searching, typing edits
    /// the query and Escape, `/` or Enter end the search.
    pub fn handle_key(&mut self, key: Key) -> (r: PageResult<Key>)
        ensures
            old(self).key_step(key, *final(self), r),
    {
        if self.search_active {
            match key.code {
                KeyCode::Esc | KeyCode::Char('/') | KeyCode::Enter => {
                    self.search_active = false;
                    self.reconcile_selection();
                },
                KeyCode::Backspace => {
                    self.search.backspace();
                    self.reconcile_selection();
                },
                KeyCode::Char(c) => {
                    self.search.push(c);
                    self.reconcile_selection();
                },
                KeyCode::Up => self.move_selection(-1),
                KeyCode::Down => self.move_selection(1),
                _ => {
                    return PageResult::Unhandled(key);
                },
            }
            return PageResult::Consumed;
        }
        match key.code {
            KeyCode::Char('/') => self.search_active = true,
            KeyCode::Up => self.move_selection(-1),
            KeyCode::Down => self.move_selection(1),
            KeyCode::Tab => {
                if key.shift {
                    self.sort_field = self.sort_field.previous();
                } else {
                    self.sort_field = self.sort_field.next();
                }
            },
            KeyCode::BackTab => self.sort_field = self.sort_field.previous(),
            KeyCode::Char('s') => self.sort_order = self.sort_order.toggle(),
            KeyCode::Char('r') => {
                self.loading = true;
                return PageResult::Message(Message::ApiRequest(ApiRequest::ListUsers));
            },
            KeyCode::Enter => {
                let visible = self.visible_users();
                let id = match self.selected_user_id {
                    Some(id) => id,
                    None => {
                        return PageResult::Unhandled(key);
                    },
                };
                return match position_in(&visible, id) {
                    Some(i) => PageResult::Message(Message::OpenUser(visible[i].duplicate())),
                    None => PageResult::Unhandled(key),
                };
            },
            _ => {
                return PageResult::Unhandled(key);
            },
        }
        PageResult::Consumed
    }
}

/// The first position of a user with the identifier.
pub fn position_in(visible: &Vec<User>, id: UserId) -> (r: Option<usize>)
    ensures
        r == (match position_of(visible@, id, 0) {
            Some(i) => Some(i as usize),
            None => None,
        }),
        r matches Some(i) ==> i < visible@.len() && visible@[i as int].id == id,
        position_of(visible@, id, 0) matches Some(j) ==> 0 <= j < visible@.len(),
{
    proof {
        lemma_position_in_range(visible@, id, 0);
    }
    let n = visible.len();
    let mut i: usize = 0;
    while i < n
        invariant
            i <= n,
            n == visible@.len(),
            position_of(visible@, id, 0) == position_of(visible@, id, i as int),
        decreases n - i,
    {
        if visible[i].id == id {
            return Some(i);
        }
        i = i + 1;
    }
    None
}

/// A page and its state.
#[derive(Debug)]
pub enum Page {
    Home(HomePage),
    Users(UsersPage),
    Transactions(TransactionsPage),
    Stats(StatsPage),
}

impl Page {
    pub open spec fn id_spec(self) -> PageId {
        match self {
            Page::Home(_) => PageId::Home,
            Page::Users(_) => PageId::Users,
            Page::Transactions(_) => PageId::Transactions,
            Page::Stats(_) => PageId::Stats,
        }
    }

    pub fn id(&self) -> (r: PageId)
        ensures
            r == self.id_spec(),
    {
        match self {
            Page::Home(_) => PageId::Home,
            Page::Users(_) => PageId::Users,
            Page::Transactions(_) => PageId::Transactions,
            Page::Stats(_) => PageId::Stats,
        }
    }

    /// A page of kind `id` as it is when first shown.
    pub open spec fn is_fresh_page(self, id: PageId) -> bool {
        &&& self.id_spec() == id
        &&& self matches Page::Users(p) ==> p.is_fresh()
        &&& self matches Page::Stats(p) ==> p == (StatsPage { stats: None, loading: true })
    }

    /// A fresh page of the given kind.
    pub fn from_id(id: PageId) -> (r: Page)
        ensures
            r.is_fresh_page(id),
    {
        match id {
            PageId::Home => Page::Home(HomePage),
            PageId::Users => Page::Users(UsersPage::new()),
            PageId::Transactions => Page::Transactions(TransactionsPage),
            PageId::Stats => Page::Stats(StatsPage::new()),
        }
    }

    /// What a key does to the page.  The home and transactions pages take
    /// no keys.
    pub open spec fn key_step(self, key: Key, next: Self, r: PageResult<Key>) -> bool {
        match (self, next) {
            (Page::Users(p), Page::Users(n)) => p.key_step(key, n, r),
            (Page::Stats(p), Page::Stats(n)) => (key.code == KeyCode::Char('r') ==> (
            r matches PageResult::Message(Message::ApiRequest(ApiRequest::Stats))) && n == (
            StatsPage { loading: true, ..p })) && (key.code != KeyCode::Char('r') ==> r
                == PageResult::Unhandled(key) && n == p),
            (Page::Home(_), Page::Home(_)) | (Page::Transactions(_), Page::Transactions(_)) => r
                == PageResult::Unhandled(key),
            _ => false,
        }
    }

    /// Hands a key to the page.
    pub fn handle_key(&mut self, key: Key) -> (r: PageResult<Key>)
        ensures
            final(self).id_spec() == old(self).id_spec(),
            old(self).key_step(key, *final(self), r),
    {
        match self {
            Page::Home(_) => PageResult::Unhandled(key),
            Page::Users(p) => p.handle_key(key),
            Page::Transactions(_) => PageResult::Unhandled(key),
            Page::Stats(p) => p.handle_key(key),
        }
    }
}

} // verus!
