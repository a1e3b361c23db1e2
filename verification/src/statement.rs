//! The cursor manager's statements: cursor names, the holdable cursor
//! declaration with its positional parameters, and the forward fetch.

use crate::filter::{
    bound_params, clause_list, clauses_view, param_list, params_view, AdFilter, Clause, ClauseView,
    Param,
};
use crate::repo::{fault_kind, ErrorKind, Operation, RepoError, Stage};
use vstd::prelude::*;
use vstd::string::{StrSliceExecFns, StringExecFns};

verus! {

/// The character that writes the digit `d`.
pub open spec fn digit_char(d: nat) -> char {
    if d == 0 {
        '0'
    } else if d == 1 {
        '1'
    } else if d == 2 {
        '2'
    } else if d == 3 {
        '3'
    } else if d == 4 {
        '4'
    } else if d == 5 {
        '5'
    } else if d == 6 {
        '6'
    } else if d == 7 {
        '7'
    } else if d == 8 {
        '8'
    } else {
        '9'
    }
}

/// The decimal numeral of `n`, without sign or leading zeros.
pub open spec fn digits_of(n: nat) -> Seq<char>
    decreases n,
{
    if n < 10 {
        seq![digit_char(n)]
    } else {
        digits_of(n / 10).push(digit_char(n % 10))
    }
}

fn digit_text(d: u64) -> (text: &'static str)
    requires
        d < 10,
    ensures
        text@ == seq![digit_char(d as nat)],
{
    proof {
        reveal_strlit("0");
        reveal_strlit("1");
        reveal_strlit("2");
        reveal_strlit("3");
        reveal_strlit("4");
        reveal_strlit("5");
        reveal_strlit("6");
        reveal_strlit("7");
        reveal_strlit("8");
        reveal_strlit("9");
    }
    let text = if d == 0 {
        "0"
    } else if d == 1 {
        "1"
    } else if d == 2 {
        "2"
    } else if d == 3 {
        "3"
    } else if d == 4 {
        "4"
    } else if d == 5 {
        "5"
    } else if d == 6 {
        "6"
    } else if d == 7 {
        "7"
    } else if d == 8 {
        "8"
    } else {
        "9"
    };
    assert(text@ =~= seq![digit_char(d as nat)]);
    text
}

/// Writes `n` as a decimal numeral.
pub fn number_text(n: u64) -> (text: String)
    ensures
        text@ == digits_of(n as nat),
    decreases n,
{
    if n < 10 {
        String::from_str(digit_text(n))
    } else {
        let mut text = number_text(n / 10);
        text.append(digit_text(n % 10));
        assert(text@ =~= digits_of((n / 10) as nat).push(digit_char((n % 10) as nat)));
        text
    }
}

/// One condition of a WHERE clause: column, operator and the placeholder
/// of the parameter at `position` (counted from one).
pub open spec fn condition_text(clause: ClauseView, position: nat) -> Seq<char> {
    clause.column() + clause.operator() + "$"@ + digits_of(position)
}

/// The WHERE clause for a clause list: empty for no clauses, otherwise the
/// conditions in list order joined by AND, the i-th using placeholder i.
pub open spec fn where_text(clauses: Seq<ClauseView>) -> Seq<char>
    decreases clauses.len(),
{
    if clauses.len() == 0 {
        Seq::empty()
    } else {
        where_text(clauses.drop_last()) + (if clauses.len() == 1 {
            " WHERE "@
        } else {
            " AND "@
        }) + condition_text(clauses.last(), clauses.len())
    }
}

/// The query over the ads relation restricted by a clause list.
pub open spec fn select_text(clauses: Seq<ClauseView>) -> Seq<char> {
    "SELECT * FROM ads"@ + where_text(clauses)
}

/// The declaration of a holdable cursor named `name` over the filtered ads.
pub open spec fn declare_text(name: Seq<char>, clauses: Seq<ClauseView>) -> Seq<char> {
    "DECLARE "@ + name + " CURSOR WITH HOLD FOR "@ + select_text(clauses)
}

/// The forward fetch of up to `count` rows from the cursor named `name`.
pub open spec fn fetch_text(name: Seq<char>, count: nat) -> Seq<char> {
    "FETCH FORWARD "@ + digits_of(count) + " FROM "@ + name
}

fn condition(clause: &Clause, position: usize) -> (text: String)
    ensures
        text@ == condition_text(clause@, position as nat),
{
    let mut text = String::from_str(clause.column());
    text.append(clause.operator());
    text.append("$");
    let number = number_text(position as u64);
    text.append(number.as_str());
    text
}

/// Renders the query for a clause list, with one positional placeholder
/// per clause; no bound value ever enters the text.
pub fn select_statement(clauses: &Vec<Clause>) -> (sql: String)
    ensures
        sql@ == select_text(clauses_view(clauses@)),
{
    let mut conditions = String::new();
    let mut i: usize = 0;
    let ghost all = clauses_view(clauses@);
    proof {
        assert(all.take(0) =~= Seq::<ClauseView>::empty());
    }
    while i < clauses.len()
        invariant
            i <= clauses.len(),
            all == clauses_view(clauses@),
            conditions@ == where_text(all.take(i as int)),
        decreases clauses.len() - i,
    {
        let separator = if i == 0 {
            " WHERE "
        } else {
            " AND "
        };
        let next = condition(&clauses[i], i + 1);
        proof {
            let upto = all.take(i + 1);
            assert(upto.drop_last() =~= all.take(i as int));
            assert(upto.last() == clauses[i as int]@);
            assert(upto.len() == i + 1);
        }
        conditions.append(separator);
        conditions.append(next.as_str());
        i = i + 1;
    }
    proof {
        assert(all.take(i as int) =~= all);
    }
    let mut sql = String::from_str("SELECT * FROM ads");
    sql.append(conditions.as_str());
    sql
}

/// Renders the declaration of a holdable cursor over a clause list.
pub fn declare_statement(name: &str, clauses: &Vec<Clause>) -> (sql: String)
    ensures
        sql@ == declare_text(name@, clauses_view(clauses@)),
{
    let mut sql = String::from_str("DECLARE ");
    sql.append(name);
    sql.append(" CURSOR WITH HOLD FOR ");
    let select = select_statement(clauses);
    sql.append(select.as_str());
    sql
}

/// Renders the forward fetch of up to `count` rows from a cursor. The
/// single-byte count is the explicit upper bound on a batch.
pub fn fetch_statement(name: &str, count: u8) -> (sql: String)
    ensures
        sql@ == fetch_text(name@, count as nat),
{
    let mut sql = String::from_str("FETCH FORWARD ");
    let number = number_text(count as u64);
    sql.append(number.as_str());
    sql.append(" FROM ");
    sql.append(name);
    sql
}

/// The release of the cursor named `name`.
pub open spec fn close_text(name: Seq<char>) -> Seq<char> {
    "CLOSE "@ + name
}

/// Renders the statement that releases a cursor, so that cursors do not
/// pile up on the server.
pub fn close_statement(name: &str) -> (sql: String)
    ensures
        sql@ == close_text(name@),
{
    let mut sql = String::from_str("CLOSE ");
    sql.append(name);
    sql
}

/// A lower-case hexadecimal digit.
pub open spec fn is_lower_hex(c: char) -> bool {
    ('0' <= c && c <= '9') || ('a' <= c && c <= 'f')
}

/// The hyphenated lower-case form of a UUID: 36 characters, hyphens after
/// the 8th, 12th, 16th and 20th digit, hexadecimal digits elsewhere.
pub open spec fn is_hyphenated_uuid(s: Seq<char>) -> bool {
    &&& s.len() == 36
    &&& forall|i: int|
        0 <= i < 36 ==> if i == 8 || i == 13 || i == 18 || i == 23 {
            s[i] == '-'
        } else {
            is_lower_hex(#[trigger] s[i])
        }
}

/// The cursor name derived from a hyphenated UUID: the prefix `c_`, which
/// makes it an identifier, and the UUID's first ten hexadecimal digits.
pub open spec fn cursor_name_of(uuid_text: Seq<char>) -> Seq<char> {
    "c_"@ + uuid_text.subrange(0, 8) + uuid_text.subrange(9, 11)
}

/// A name this library generates for a cursor: `c_` and ten lower-case
/// hexadecimal digits.
pub open spec fn is_cursor_name(name: Seq<char>) -> bool {
    &&& name.len() == 12
    &&& name[0] == 'c'
    &&& name[1] == '_'
    &&& forall|i: int| 2 <= i < 12 ==> is_lower_hex(#[trigger] name[i])
}

/// Whether a text is a name this library generates for a cursor. Only such
/// a name is safe to write into a statement.
pub fn valid_cursor_name(name: &str) -> (ok: bool)
    ensures
        ok == is_cursor_name(name@),
{
    if name.unicode_len() != 12 {
        return false;
    }
    if name.get_char(0) != 'c' || name.get_char(1) != '_' {
        return false;
    }
    let mut i: usize = 2;
    while i < 12
        invariant
            2 <= i <= 12,
            name@.len() == 12,
            forall|j: int| 2 <= j < i ==> is_lower_hex(#[trigger] name@[j]),
        decreases 12 - i,
    {
        let c = name.get_char(i);
        if !(('0' <= c && c <= '9') || ('a' <= c && c <= 'f')) {
            assert(!is_lower_hex(name@[i as int]));
            return false;
        }
        i = i + 1;
    }
    true
}

/// What a fetch asks of storage.
#[derive(Clone, Debug, PartialEq, Eq)]
pub enum FetchPlan {
    /// The name is none this library generates, so no cursor has it.
    Refused(RepoError),
    /// No row is wanted: storage is not asked and the batch is empty.
    Nothing,
    /// The statement to run.
    Statement(String),
}

/// Plans a fetch of up to `count` rows. A name that is no generated cursor
/// name is refused with a cursor fetch error and never written into a
/// statement; a fetch of zero rows needs no statement; any other fetch is
/// the forward fetch statement.
pub fn fetch_plan(name: &str, count: u8) -> (plan: FetchPlan)
    ensures
        match plan {
            FetchPlan::Refused(e) => {
                &&& !is_cursor_name(name@)
                &&& e.kind == ErrorKind::CursorFetch
                &&& e.cause@ == name@
            },
            FetchPlan::Nothing => is_cursor_name(name@) && count == 0,
            FetchPlan::Statement(sql) => {
                &&& is_cursor_name(name@)
                &&& count > 0
                &&& sql@ == fetch_text(name@, count as nat)
            },
        },
{
    if !valid_cursor_name(name) {
        FetchPlan::Refused(
            RepoError { kind: ErrorKind::CursorFetch, cause: String::from_str(name) },
        )
    } else if count == 0 {
        FetchPlan::Nothing
    } else {
        FetchPlan::Statement(fetch_statement(name, count))
    }
}

/// Plans the release of a cursor: the statement for a generated name; any
/// other name is refused with the error a failed release reports, and
/// never written into a statement.
pub fn close_plan(name: &str) -> (plan: Result<String, RepoError>)
    ensures
        match plan {
            Ok(sql) => is_cursor_name(name@) && sql@ == close_text(name@),
            Err(e) => {
                &&& !is_cursor_name(name@)
                &&& e.kind == fault_kind(Operation::CloseCursor, Stage::Execute)
                &&& e.cause@ == name@
            },
        },
{
    if valid_cursor_name(name) {
        Ok(close_statement(name))
    } else {
        Err(RepoError { kind: ErrorKind::Storage, cause: String::from_str(name) })
    }
}

/// Every name derived from a hyphenated UUID is a well-formed cursor name.
pub proof fn lemma_cursor_name_shape(uuid_text: Seq<char>)
    requires
        is_hyphenated_uuid(uuid_text),
    ensures
        is_cursor_name(cursor_name_of(uuid_text)),
{
    reveal_strlit("c_");
    let name = cursor_name_of(uuid_text);
    assert(name.len() == 12);
    assert forall|i: int| 2 <= i < 12 implies is_lower_hex(#[trigger] name[i]) by {
        if i < 10 {
            assert(name[i] == uuid_text[i - 2]);
        } else {
            assert(name[i] == uuid_text[i - 1]);
        }
    }
}

/// Derives the cursor name from the text of a UUID.
pub fn cursor_name_from(uuid_text: &str) -> (name: String)
    requires
        is_hyphenated_uuid(uuid_text@),
    ensures
        name@ == cursor_name_of(uuid_text@),
        is_cursor_name(name@),
{
    let mut name = String::from_str("c_");
    name.append(uuid_text.substring_char(0, 8));
    name.append(uuid_text.substring_char(9, 11));
    proof {
        lemma_cursor_name_shape(uuid_text@);
    }
    name
}

/// Draws a version-4 UUID with `uuid::Uuid::new_v4` and writes it with its
/// `Display` impl. Which digits come out is random; the contract claims
/// only the hyphenated lower-case layout that the formatter always
/// produces. The draw panics only where the system's source of randomness
/// fails.
#[verifier::external_body]
pub(crate) fn new_uuid_text() -> (text: String)
    ensures
        is_hyphenated_uuid(text@),
{
    uuid::Uuid::new_v4().to_string()
}

/// Generates an unpredictable cursor name. Two calls may return different
/// names; every one of them is a well-formed cursor name.
pub fn new_cursor_name() -> (name: String)
    ensures
        is_cursor_name(name@),
{
    let uuid_text = new_uuid_text();
    cursor_name_from(uuid_text.as_str())
}

/// Everything needed to declare a cursor: its name, the statement, and the
/// values to bind to the statement's placeholders, in order.
#[derive(Clone, Debug, PartialEq, Eq)]
pub struct CursorDeclaration {
    pub name: String,
    pub statement: String,
    pub params: Vec<Param>,
}

/// Plans the declaration of a cursor named `name` over `filter`.
pub fn cursor_declaration(name: String, filter: &AdFilter) -> (plan: CursorDeclaration)
    ensures
        plan.name@ == name@,
        plan.statement@ == declare_text(name@, clause_list(filter@)),
        params_view(plan.params@) == param_list(clause_list(filter@)),
{
    let clauses = filter.clauses();
    let statement = declare_statement(name.as_str(), &clauses);
    let params = bound_params(&clauses);
    CursorDeclaration { name, statement, params }
}

/// Plans a new cursor over `filter` under a freshly generated name.
pub fn new_cursor(filter: &AdFilter) -> (plan: CursorDeclaration)
    ensures
        is_cursor_name(plan.name@),
        plan.statement@ == declare_text(plan.name@, clause_list(filter@)),
        params_view(plan.params@) == param_list(clause_list(filter@)),
{
    cursor_declaration(new_cursor_name(), filter)
}

} // verus!
