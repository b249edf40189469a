//! The domain values that the terminal client shows and edits.
use crate::text::string_push;
use vstd::prelude::*;

verus! {

/// A user identifier: the 128-bit value of the server's UUID.
#[derive(Clone, Copy, Debug, PartialEq, Eq, Structural)]
pub struct UserId(pub u128);

/// The lower-case hexadecimal digit for `d` below sixteen.
pub open spec fn hex_digit(d: int) -> char {
    if d < 10 {
        (('0' as int) + d) as char
    } else {
        (('a' as int) + d - 10) as char
    }
}

/// The `n` lowest hexadecimal digits of `v`, the most significant first.
pub open spec fn hex_digits(v: nat, n: nat) -> Seq<char>
    decreases n,
{
    if n == 0 {
        Seq::empty()
    } else {
        hex_digits(v / 16, (n - 1) as nat).push(hex_digit((v % 16) as int))
    }
}

/// The hyphenated text of a UUID: its 32 lower-case hexadecimal digits,
/// the most significant first, grouped 8-4-4-4-12 by hyphens.
pub open spec fn uuid_text(value: u128) -> Seq<char> {
    let h = hex_digits(value as nat, 32);
    h.subrange(0, 8) + seq!['-'] + h.subrange(8, 12) + seq!['-'] + h.subrange(12, 16) + seq!['-']
        + h.subrange(16, 20) + seq!['-'] + h.subrange(20, 32)
}

/// `uuid::Uuid::from_u128(..).to_string()`.  Claimed: the text is the
/// hyphenated form `uuid_text`, which the crate documents as the `Display`
/// of a UUID, with the value's bytes taken most significant first.
#[verifier::external_body]
fn uuid_to_string(value: u128) -> (r: String)
    ensures
        r@ == uuid_text(value),
{
    uuid::Uuid::from_u128(value).to_string()
}

impl UserId {
    /// The identifier as the server writes it in paths and messages.
    pub fn to_text(&self) -> (r: String)
        ensures
            r@ == uuid_text(self.0),
    {
        uuid_to_string(self.0)
    }
}

/// A user's role.
#[derive(Clone, Copy, Debug, PartialEq, Eq, Structural)]
pub enum Role {
    Admin,
    User,
}

impl Role {
    pub open spec fn text(self) -> Seq<char> {
        match self {
            Role::Admin => seq!['A', 'd', 'm', 'i', 'n'],
            Role::User => seq!['U', 's', 'e', 'r'],
        }
    }

    /// The role's display text: `Admin` or `User`.
    pub fn to_text(&self) -> (r: String)
        ensures
            r@ == self.text(),
    {
        let mut s = String::new();
        match self {
            Role::Admin => {
                string_push(&mut s, 'A');
                string_push(&mut s, 'd');
                string_push(&mut s, 'm');
                string_push(&mut s, 'i');
                string_push(&mut s, 'n');
            },
            Role::User => {
                string_push(&mut s, 'U');
                string_push(&mut s, 's');
                string_push(&mut s, 'e');
                string_push(&mut s, 'r');
            },
        }
        assert(s@ =~= self.text());
        s
    }
}

/// An amount of money, in the server's smallest unit.
#[derive(Clone, Copy, Debug, PartialEq, Eq, Structural)]
pub struct Amount(pub u32);

/// A calendar date, held as chrono's day number counted from 1 January of
/// year 1 (`Datelike::num_days_from_ce`).  Dates compare by this number.
#[derive(Clone, Copy, Debug, PartialEq, Eq, Structural)]
pub struct Date {
    pub days_from_ce: i32,
}

/// The day number of the date `year-month-day`, when it exists.
pub uninterp spec fn ymd_days(year: i32, month: u32, day: u32) -> Option<i32>;

/// `chrono::NaiveDate::from_ymd_opt`, read back as its day number.
/// Claimed: the result is a function of the three numbers, named
/// `ymd_days`; which dates exist is not spelled out here.
#[verifier::external_body]
fn naive_date_from_ymd(year: i32, month: u32, day: u32) -> (r: Option<i32>)
    ensures
        r == ymd_days(year, month, day),
{
    match chrono::NaiveDate::from_ymd_opt(year, month, day) {
        Some(date) => Some(chrono::Datelike::num_days_from_ce(&date)),
        None => None,
    }
}

/// The day number of the date that a text in the form `%Y-%m-%d` denotes.
pub uninterp spec fn iso_date_days(text: Seq<char>) -> Option<i32>;

/// `chrono::NaiveDate::parse_from_str(text, "%Y-%m-%d")`, read back as its
/// day number.  Claimed: the result is a function of the text, named
/// `iso_date_days`; chrono's parser is not restated.
#[verifier::external_body]
fn naive_date_parse_iso(text: &str) -> (r: Option<i32>)
    ensures
        r == iso_date_days(text@),
{
    match chrono::NaiveDate::parse_from_str(text, "%Y-%m-%d") {
        Ok(date) => Some(chrono::Datelike::num_days_from_ce(&date)),
        Err(_) => None,
    }
}

/// chrono's display text (`%Y-%m-%d`) of the date with the given day
/// number, when that day number is within chrono's range.
pub uninterp spec fn date_text_of(days_from_ce: i32) -> Option<Seq<char>>;

/// `chrono::NaiveDate::from_num_days_from_ce_opt(..)` followed by its
/// `Display`.  Claimed: the result is a function of the day number, named
/// `date_text_of`.
#[verifier::external_body]
fn naive_date_text(days_from_ce: i32) -> (r: Option<String>)
    ensures
        r matches Some(t) ==> date_text_of(days_from_ce) == Some(t@),
        r is None <==> date_text_of(days_from_ce) is None,
{
    match chrono::NaiveDate::from_num_days_from_ce_opt(days_from_ce) {
        Some(date) => Some(date.to_string()),
        None => None,
    }
}

impl Date {
    /// The date `year-month-day`, or `None` where the calendar has no such day.
    pub fn from_ymd(year: i32, month: u32, day: u32) -> (r: Option<Date>)
        ensures
            r == (match ymd_days(year, month, day) {
                Some(d) => Some(Date { days_from_ce: d }),
                None => None,
            }),
    {
        match naive_date_from_ymd(year, month, day) {
            Some(d) => Some(Date { days_from_ce: d }),
            None => None,
        }
    }

    /// Parses a date written as `%Y-%m-%d`.
    pub fn parse_iso(text: &str) -> (r: Option<Date>)
        ensures
            r == (match iso_date_days(text@) {
                Some(d) => Some(Date { days_from_ce: d }),
                None => None,
            }),
    {
        match naive_date_parse_iso(text) {
            Some(d) => Some(Date { days_from_ce: d }),
            None => None,
        }
    }

    pub open spec fn text(self) -> Seq<char> {
        match date_text_of(self.days_from_ce) {
            Some(t) => t,
            None => Seq::empty(),
        }
    }

    /// The date written as `%Y-%m-%d`; empty for a day number outside
    /// chrono's range.
    pub fn to_text(&self) -> (r: String)
        ensures
            r@ == self.text(),
    {
        match naive_date_text(self.days_from_ce) {
            Some(t) => t,
            None => String::new(),
        }
    }
}

/// Totals over all users, as the stats page shows them.
#[derive(Clone, Copy, Debug, PartialEq, Eq, Structural)]
pub struct Stats {
    pub total_users: u32,
    pub total_balance: Amount,
    pub total_spent: Amount,
    pub total_transactions: u32,
}

/// The statistics summary as the server sends it.
#[derive(Clone, Copy, Debug, PartialEq, Eq, Structural)]
pub struct StatsSummary {
    pub total_users: u32,
    pub total_balance: u32,
    pub total_spent: u32,
    pub total_transactions: u32,
}

impl StatsSummary {
    /// The summary as domain statistics.
    pub fn to_stats(&self) -> (r: Stats)
        ensures
            r == (Stats {
                total_users: self.total_users,
                total_balance: Amount(self.total_balance),
                total_spent: Amount(self.total_spent),
                total_transactions: self.total_transactions,
            }),
    {
        Stats {
            total_users: self.total_users,
            total_balance: Amount(self.total_balance),
            total_spent: Amount(self.total_spent),
            total_transactions: self.total_transactions,
        }
    }
}

/// A user account.
#[derive(Clone, Debug)]
pub struct User {
    pub id: UserId,
    pub name: String,
    pub username: String,
    pub program: String,
    pub card_number: u32,
    pub role: Role,
    pub birthdate: Date,
    pub comments: String,
    pub balance: Amount,
    pub spent: Amount,
}

impl User {
    /// An equal copy of the user.
    pub fn duplicate(&self) -> (r: User)
        ensures
            r == *self,
    {
        User {
            id: self.id,
            name: self.name.clone(),
            username: self.username.clone(),
            program: self.program.clone(),
            card_number: self.card_number,
            role: self.role,
            birthdate: self.birthdate,
            comments: self.comments.clone(),
            balance: self.balance,
            spent: self.spent,
        }
    }
}

/// The fields of a user that an update changes; `None` leaves a field as it is.
#[derive(Clone, Debug)]
pub struct UserPatch {
    pub name: Option<String>,
    pub username: Option<String>,
    pub program: Option<String>,
    pub card_number: Option<u32>,
    pub comments: Option<String>,
}

/// A transaction identifier: the 128-bit value of the server's UUID.
#[derive(Clone, Copy, Debug, PartialEq, Eq, Structural)]
pub struct TransactionId(pub u128);

#[derive(Clone, Copy, Debug, PartialEq, Eq, Structural)]
pub enum TransactionKind {
    Spend,
    TopUp,
}

#[derive(Clone, Copy, Debug, PartialEq, Eq, Structural)]
pub enum TransactionSource {
    Live,
    Migration,
    Adjustment,
}

/// A recorded spend or top-up.
#[derive(Clone, Copy, Debug)]
pub struct Transaction {
    pub id: TransactionId,
    pub user_id: UserId,
    pub kind: TransactionKind,
    pub amount: Amount,
    /// Milliseconds since the Unix epoch (UTC).
    pub timestamp_millis: i64,
    pub approved_by: Option<UserId>,
    pub source: TransactionSource,
}

/// The body of a spend request: the amount.
#[derive(Clone, Copy, Debug, PartialEq, Eq, Structural)]
pub struct SpendRequest(pub u32);

/// The body of a top-up request: the amount.
#[derive(Clone, Copy, Debug, PartialEq, Eq, Structural)]
pub struct TopupRequest(pub u32);

} // verus!
