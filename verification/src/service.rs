//! Service-level rules: rate-limit answers, asset caching, database opening
//! and schema checks, the listening port and the identity provider's address.
use vstd::prelude::*;
use crate::text::{
    ascii_lowercase, ascii_lowercase_chars, chars_contain, chars_of, has_infix, has_prefix,
    starts_with_text, text_eq,
};

verus! {

/// Read routes: one request per 50 ms is replenished, bursts of up to 40.
pub const READ_REPLENISH_MS: u64 = 50;
pub const READ_BURST: u32 = 40;

/// Write routes: one request per 250 ms is replenished, bursts of up to 8.
pub const WRITE_REPLENISH_MS: u64 = 250;
pub const WRITE_BURST: u32 = 8;

/// The largest request body accepted, in bytes (6 MiB).
pub const REQUEST_BODY_LIMIT: usize = 6291456;

/// The port used when none is configured.
pub const DEFAULT_PORT: u16 = 8080;

/// The `Retry-After` seconds of a rate-limited answer: the limiter's wait,
/// but at least one second; one second when the limiter gave no wait.
pub fn retry_after_seconds(wait: Option<u64>) -> (secs: u64)
    ensures
        secs == match wait {
            Some(w) => if w >= 1 {
                w
            } else {
                1
            },
            None => 1,
        },
        secs >= 1,
{
    match wait {
        Some(w) => if w >= 1 {
            w
        } else {
            1
        },
        None => 1,
    }
}

/// Successful answers under `/assets/` hold content-hashed files and may be
/// cached for a year as immutable.
pub fn is_immutable_asset(path: &str, success: bool) -> (b: bool)
    ensures
        b == (has_prefix(path@, "/assets/"@) && success),
{
    starts_with_text(path, "/assets/") && success
}

/// A database error reports that SQLite is locked or busy (in any letter
/// case).
pub open spec fn locked_message(message: Seq<char>) -> bool {
    has_infix(ascii_lowercase(message), "database is locked"@) || has_infix(
        ascii_lowercase(message),
        "database is busy"@,
    )
}

/// Whether a database error only says that SQLite is locked or busy.
pub fn sqlite_is_locked(message: &str) -> (b: bool)
    ensures
        b == locked_message(message@),
{
    let lower = ascii_lowercase_chars(message);
    chars_contain(&lower, &chars_of("database is locked")) || chars_contain(
        &lower,
        &chars_of("database is busy"),
    )
}

/// What one attempt to open and migrate the database came to.
#[derive(Clone, Copy, Debug, PartialEq, Eq, Structural)]
pub enum OpenOutcome {
    Opened,
    Locked,
    Failed,
}

/// What to do after an attempt to open the database.
#[derive(Clone, Copy, Debug, PartialEq, Eq, Structural)]
pub enum RetryAction {
    /// Use the database that was opened.
    Finish,
    /// Wait for the retry delay, then try again.
    WaitAndRetry,
    /// Report the error of this attempt.
    GiveUp,
}

pub open spec fn retry_action_of(attempt: int, attempts: int, outcome: OpenOutcome) -> RetryAction {
    match outcome {
        OpenOutcome::Opened => RetryAction::Finish,
        OpenOutcome::Locked => if attempt < attempts {
            RetryAction::WaitAndRetry
        } else {
            RetryAction::GiveUp
        },
        OpenOutcome::Failed => RetryAction::GiveUp,
    }
}

/// Decides, after attempt number `attempt` of `attempts`, whether to use the
/// database, retry because SQLite was locked, or give up.
pub fn after_open_attempt(attempt: usize, attempts: usize, outcome: OpenOutcome) -> (a: RetryAction)
    requires
        1 <= attempt <= attempts,
    ensures
        a == retry_action_of(attempt as int, attempts as int, outcome),
{
    match outcome {
        OpenOutcome::Opened => RetryAction::Finish,
        OpenOutcome::Locked => if attempt < attempts {
            RetryAction::WaitAndRetry
        } else {
            RetryAction::GiveUp
        },
        OpenOutcome::Failed => RetryAction::GiveUp,
    }
}

/// Opening the database makes at most `attempts` attempts: a retry is only
/// ever decided before the last attempt, and only for a locked database.
pub proof fn law_bounded_retries(attempt: int, attempts: int, outcome: OpenOutcome)
    requires
        1 <= attempt <= attempts,
    ensures
        retry_action_of(attempt, attempts, outcome) == RetryAction::WaitAndRetry ==> attempt + 1
            <= attempts && outcome == OpenOutcome::Locked,
        attempt == attempts ==> retry_action_of(attempt, attempts, outcome)
            != RetryAction::WaitAndRetry,
{
}

/// The names of the settings table's columns include `owner_oid`.
pub open spec fn has_owner_column_of(column_names: Seq<Seq<char>>) -> bool {
    exists|i: int| 0 <= i < column_names.len() && column_names[i] == "owner_oid"@
}

/// The text of each column name.
pub open spec fn names_view(column_names: Seq<String>) -> Seq<Seq<char>> {
    column_names.map_values(|s: String| s@)
}

/// Whether the settings table already has the `owner_oid` column.
pub fn has_owner_column(column_names: &Vec<String>) -> (b: bool)
    ensures
        b == has_owner_column_of(names_view(column_names@)),
{
    let mut i: usize = 0;
    while i < column_names.len()
        invariant
            i <= column_names@.len(),
            forall|k: int| 0 <= k < i ==> column_names@[k]@ != "owner_oid"@,
        decreases column_names@.len() - i,
    {
        if text_eq(column_names[i].as_str(), "owner_oid") {
            assert(names_view(column_names@)[i as int] == "owner_oid"@);
            return true;
        }
        i = i + 1;
    }
    assert forall|k: int| 0 <= k < names_view(column_names@).len() implies names_view(
        column_names@,
    )[k] != "owner_oid"@ by {
        assert(names_view(column_names@)[k] == column_names@[k]@);
    }
    false
}

/// The schema is current when all six tables exist, the settings table has
/// the `owner_oid` column and the roster-limit trigger exists.
pub fn schema_is_current(table_count: i64, column_names: &Vec<String>, trigger_count: i64) -> (b:
    bool)
    ensures
        b == (table_count == 6 && has_owner_column_of(names_view(column_names@)) && trigger_count
            == 1),
{
    if table_count != 6 {
        return false;
    }
    has_owner_column(column_names) && trigger_count == 1
}

pub open spec fn is_ascii_digit(c: char) -> bool {
    '0' <= c <= '9'
}

/// The value of a string of decimal digits.
pub open spec fn decimal_value(d: Seq<char>) -> int
    decreases d.len(),
{
    if d.len() == 0 {
        0
    } else {
        decimal_value(d.drop_last()) * 10 + (d.last() as int - 48)
    }
}

/// The digits that `u16::from_str` reads: a single leading `+` is allowed
/// before at least one digit.
pub open spec fn unsigned_digits(s: Seq<char>) -> Seq<char> {
    if s.len() > 1 && s[0] == '+' {
        s.drop_first()
    } else {
        s
    }
}

/// The port a text names as `u16::from_str` reads it, if any.
pub open spec fn port_value(s: Seq<char>) -> Option<int> {
    let d = unsigned_digits(s);
    if d.len() > 0 && (forall|i: int| 0 <= i < d.len() ==> is_ascii_digit(#[trigger] d[i]))
        && decimal_value(d) <= 65535 {
        Some(decimal_value(d))
    } else {
        None
    }
}

/// The port to listen on: the configured text when it reads as a port,
/// 8080 otherwise.
pub open spec fn port_of(value: Option<Seq<char>>) -> int {
    match value {
        Some(s) => match port_value(s) {
            Some(p) => p,
            None => 8080,
        },
        None => 8080,
    }
}

proof fn lemma_decimal_take(d: Seq<char>, i: int)
    requires
        0 <= i < d.len(),
    ensures
        decimal_value(d.take(i + 1)) == decimal_value(d.take(i)) * 10 + (d[i] as int - 48),
{
    assert(d.take(i + 1).drop_last() =~= d.take(i));
}

proof fn lemma_decimal_grows(d: Seq<char>, i: int)
    requires
        0 <= i <= d.len(),
        forall|k: int| 0 <= k < d.len() ==> is_ascii_digit(#[trigger] d[k]),
    ensures
        decimal_value(d) >= decimal_value(d.take(i)),
        decimal_value(d.take(i)) >= 0,
    decreases d.len() - i,
{
    if i == d.len() {
        assert(d.take(i) =~= d);
        lemma_decimal_nonneg(d);
    } else {
        lemma_decimal_take(d, i);
        lemma_decimal_grows(d, i + 1);
        lemma_decimal_nonneg(d.take(i));
        assert(d.take(i + 1)[i] == d[i]);
    }
}

proof fn lemma_decimal_nonneg(d: Seq<char>)
    requires
        forall|k: int| 0 <= k < d.len() ==> is_ascii_digit(#[trigger] d[k]),
    ensures
        decimal_value(d) >= 0,
    decreases d.len(),
{
    if d.len() > 0 {
        let e = d.drop_last();
        assert forall|k: int| 0 <= k < e.len() implies is_ascii_digit(#[trigger] e[k]) by {
            assert(e[k] == d[k]);
        }
        lemma_decimal_nonneg(e);
    }
}

/// The port to listen on, from the configured text if there is one.
pub fn port_from(value: Option<&str>) -> (port: u16)
    ensures
        port == port_of(
            match value {
                Some(s) => Some(s@),
                None => None,
            },
        ),
{
    let s = match value {
        Some(s) => s,
        None => {
            return DEFAULT_PORT;
        },
    };
    let v = chars_of(s);
    let start: usize = if v.len() > 1 && v[0] == '+' {
        1
    } else {
        0
    };
    let ghost d = unsigned_digits(s@);
    assert(d =~= v@.subrange(start as int, v@.len() as int));
    if start == v.len() {
        return DEFAULT_PORT;
    }
    let mut acc: u32 = 0;
    let mut i: usize = start;
    while i < v.len()
        invariant
            start <= i <= v@.len(),
            d == v@.subrange(start as int, v@.len() as int),
            v@ == s@,
            acc <= 65535,
            acc == decimal_value(d.take(i - start)),
            forall|k: int| 0 <= k < i - start ==> is_ascii_digit(#[trigger] d[k]),
            d == unsigned_digits(s@),
            value == Some(s),
        decreases v@.len() - i,
    {
        let c = v[i];
        if !('0' <= c && c <= '9') {
            assert(!is_ascii_digit(d[i - start]));
            return DEFAULT_PORT;
        }
        proof {
            lemma_decimal_take(d, i - start);
        }
        let next: u32 = acc * 10 + (c as u32 - 48);
        if next > 65535 {
            proof {
                let j = i - start + 1;
                if forall|k: int| 0 <= k < d.len() ==> is_ascii_digit(#[trigger] d[k]) {
                    lemma_decimal_grows(d, j);
                }
            }
            return DEFAULT_PORT;
        }
        acc = next;
        i = i + 1;
    }
    assert(d.take(d.len() as int) =~= d);
    acc as u16
}

/// The default directory tenant of the board's Entra External ID.
pub fn default_tenant_id() -> (id: &'static str)
    ensures
        id@ == "35c6fe40-0ec0-46b6-98c6-213ad4de6650"@,
{
    "35c6fe40-0ec0-46b6-98c6-213ad4de6650"
}

/// The default tenant subdomain of the board's Entra External ID.
pub fn default_tenant_subdomain() -> (sub: &'static str)
    ensures
        sub@ == "sociobotcustomers"@,
{
    "sociobotcustomers"
}

/// The default application (client) id registered for the board.
pub fn default_client_id() -> (id: &'static str)
    ensures
        id@ == "25c704f4-465a-47af-80ab-2c489466b697"@,
{
    "25c704f4-465a-47af-80ab-2c489466b697"
}

/// The OpenID discovery address of a tenant.
pub open spec fn discovery_url_of(subdomain: Seq<char>, tenant_id: Seq<char>) -> Seq<char> {
    "https://"@ + subdomain + ".ciamlogin.com/"@ + tenant_id
        + "/v2.0/.well-known/openid-configuration"@
}

/// The OpenID discovery address of a tenant.
pub fn discovery_url(subdomain: &str, tenant_id: &str) -> (url: String)
    ensures
        url@ == discovery_url_of(subdomain@, tenant_id@),
{
    let mut url = "https://".to_owned();
    url.append(subdomain);
    url.append(".ciamlogin.com/");
    url.append(tenant_id);
    url.append("/v2.0/.well-known/openid-configuration");
    url
}

} // verus!
