//! Exporting a family's transactions as CSV.
use vstd::prelude::*;
use crate::services::store::{SqlArg, SqlArgView, args_view, clause_if, opt_int_arg, opt_text_arg, push_opt_int, push_opt_text};
use crate::services::transaction_service::Query;
use crate::text::{append_text, chars_of, string_of};

verus! {

/// The statement that selects the rows of an export, newest first.
pub open spec fn export_query_text(has_from: bool, has_to: bool, has_wallet: bool) -> Seq<char> {
    "SELECT t.occurred_at, w.name as wallet_name, t.type as type_, t.amount_cents, t.source_type, t.category, t.notes FROM transactions t JOIN wallets w ON t.wallet_id = w.id WHERE t.family_id = ? AND t.is_deleted = 0"@
        + clause_if(has_from, " AND t.occurred_at >= ?"@) + clause_if(
        has_to,
        " AND t.occurred_at <= ?"@,
    ) + clause_if(has_wallet, " AND t.wallet_id = ?"@) + " ORDER BY t.occurred_at DESC"@
}

/// The rows of a family's export: its transactions within the date range (and of the
/// wallet) given, with their wallet names, newest first.
pub fn export_query(
    family_id: i64,
    date_from: &Option<String>,
    date_to: &Option<String>,
    wallet_id: Option<i64>,
) -> (q: Query)
    ensures
        q.sql@ == export_query_text(date_from is Some, date_to is Some, wallet_id is Some),
        args_view(q.args@) == seq![SqlArgView::Int(family_id)] + opt_text_arg(*date_from)
            + opt_text_arg(*date_to) + opt_int_arg(wallet_id),
{
    let mut sql = "SELECT t.occurred_at, w.name as wallet_name, t.type as type_, t.amount_cents, t.source_type, t.category, t.notes FROM transactions t JOIN wallets w ON t.wallet_id = w.id WHERE t.family_id = ? AND t.is_deleted = 0".to_owned();
    if date_from.is_some() {
        append_text(&mut sql, " AND t.occurred_at >= ?");
    }
    if date_to.is_some() {
        append_text(&mut sql, " AND t.occurred_at <= ?");
    }
    if wallet_id.is_some() {
        append_text(&mut sql, " AND t.wallet_id = ?");
    }
    append_text(&mut sql, " ORDER BY t.occurred_at DESC");
    assert(sql@ =~= export_query_text(date_from is Some, date_to is Some, wallet_id is Some));
    let mut args: Vec<SqlArg> = Vec::new();
    args.push(SqlArg::Int(family_id));
    push_opt_text(&mut args, date_from);
    push_opt_text(&mut args, date_to);
    push_opt_int(&mut args, wallet_id);
    assert(args_view(args@) =~= seq![SqlArgView::Int(family_id)] + opt_text_arg(*date_from)
        + opt_text_arg(*date_to) + opt_int_arg(wallet_id));
    Query { sql, args }
}

/// Whether `part` stands in `s` at position `i`.
pub open spec fn stands_at(s: Seq<char>, part: Seq<char>, i: int) -> bool {
    0 <= i && i + part.len() <= s.len() && s.subrange(i, i + part.len()) == part
}

/// The start of every export statement: the columns, the join with the wallets, and the
/// family's live transactions.
pub open spec fn export_base() -> Seq<char> {
    "SELECT t.occurred_at, w.name as wallet_name, t.type as type_, t.amount_cents, t.source_type, t.category, t.notes FROM transactions t JOIN wallets w ON t.wallet_id = w.id WHERE t.family_id = ? AND t.is_deleted = 0"@
}

/// The date range of an export bounds the time a transaction occurred from both sides:
/// right after the family's condition comes, when a start date is given, the condition
/// that `occurred_at` is at or after it (`>=`), then, when an end date is given, the
/// condition that `occurred_at` is at or before it (`<=`), then the wallet's; the dates are
/// bound in that order after the family, and the rows come newest first.
pub proof fn law_export_dates_bound_occurred_at(
    family_id: i64,
    date_from: Option<String>,
    date_to: Option<String>,
    wallet_id: Option<i64>,
    q: Query,
)
    requires
        q.sql@ == export_query_text(date_from is Some, date_to is Some, wallet_id is Some),
        args_view(q.args@) == seq![SqlArgView::Int(family_id)] + opt_text_arg(date_from)
            + opt_text_arg(date_to) + opt_int_arg(wallet_id),
    ensures
        ({
            let from_len: int = if date_from is Some {
                " AND t.occurred_at >= ?"@.len() as int
            } else {
                0
            };
            let to_len: int = if date_to is Some {
                " AND t.occurred_at <= ?"@.len() as int
            } else {
                0
            };
            let base = export_base().len() as int;
            &&& q.sql@.subrange(0, base) == export_base()
            &&& date_from is Some ==> stands_at(q.sql@, " AND t.occurred_at >= ?"@, base)
            &&& date_to is Some ==> stands_at(q.sql@, " AND t.occurred_at <= ?"@, base + from_len)
            &&& wallet_id is Some ==> stands_at(q.sql@, " AND t.wallet_id = ?"@, base + from_len + to_len)
            &&& q.sql@.len() >= base + from_len + to_len
            &&& q.sql@.subrange(q.sql@.len() - " ORDER BY t.occurred_at DESC"@.len(), q.sql@.len() as int) == " ORDER BY t.occurred_at DESC"@
        }),
        args_view(q.args@)[0] == SqlArgView::Int(family_id),
        date_from matches Some(f) ==> args_view(q.args@)[1] == SqlArgView::Text(f@),
        date_to matches Some(t) ==> args_view(q.args@)[if date_from is Some { 2int } else { 1int }]
            == SqlArgView::Text(t@),
{
    let a = export_base();
    let b = clause_if(date_from is Some, " AND t.occurred_at >= ?"@);
    let c = clause_if(date_to is Some, " AND t.occurred_at <= ?"@);
    let d = clause_if(wallet_id is Some, " AND t.wallet_id = ?"@);
    let e = " ORDER BY t.occurred_at DESC"@;
    let sql = q.sql@;
    assert(sql == a + b + c + d + e);
    assert(sql.subrange(0, a.len() as int) =~= a);
    assert(sql.subrange(a.len() as int, (a.len() + b.len()) as int) =~= b);
    assert(sql.subrange((a.len() + b.len()) as int, (a.len() + b.len() + c.len()) as int) =~= c);
    assert(sql.subrange(
        (a.len() + b.len() + c.len()) as int,
        (a.len() + b.len() + c.len() + d.len()) as int,
    ) =~= d);
    assert(sql.subrange(sql.len() - e.len(), sql.len() as int) =~= e);
    reveal_strlit(" AND t.occurred_at >= ?");
    reveal_strlit(" AND t.occurred_at <= ?");
}

/// `f` with every double quote doubled.
pub open spec fn doubled_quotes(f: Seq<char>) -> Seq<char>
    decreases f.len(),
{
    if f.len() == 0 {
        Seq::empty()
    } else {
        doubled_quotes(f.drop_last()) + if f.last() == '"' {
            seq!['"', '"']
        } else {
            seq![f.last()]
        }
    }
}

/// Whether a field must be quoted: it holds a comma, a double quote or a line feed.
pub open spec fn needs_quoting(f: Seq<char>) -> bool {
    f.contains(',') || f.contains('"') || f.contains('\n')
}

/// A field as it stands in the CSV: quoted, with its quotes doubled, when it needs
/// quoting; else as it is.
pub open spec fn csv_field(f: Seq<char>) -> Seq<char> {
    if needs_quoting(f) {
        seq!['"'] + doubled_quotes(f) + seq!['"']
    } else {
        f
    }
}

/// A field made safe for CSV: quoted, with quotes doubled, when it holds a comma, a double
/// quote or a line feed.
pub fn escape_csv_field(field: &str) -> (s: String)
    ensures
        s@ == csv_field(field@),
{
    let cs = chars_of(field);
    let mut needs = false;
    let mut i: usize = 0;
    while i < cs.len()
        invariant
            cs@ == field@,
            i <= cs.len(),
            needs == (cs@.take(i as int).contains(',') || cs@.take(i as int).contains('"')
                || cs@.take(i as int).contains('\n')),
        decreases cs.len() - i,
    {
        let c = cs[i];
        proof {
            let t = cs@.take(i as int);
            let t1 = cs@.take(i + 1);
            assert(t1 =~= t.push(c));
            assert forall|x: char| t1.contains(x) <==> (t.contains(x) || x == c) by {
                if t1.contains(x) {
                    let k = choose|k: int| 0 <= k < t1.len() && t1[k] == x;
                    if k < t.len() {
                        assert(t[k] == x);
                    }
                }
                if t.contains(x) {
                    let k = choose|k: int| 0 <= k < t.len() && t[k] == x;
                    assert(t1[k] == x);
                }
                if x == c {
                    assert(t1[i as int] == x);
                }
            }
        }
        if c == ',' || c == '"' || c == '\n' {
            needs = true;
        }
        i += 1;
    }
    assert(cs@.take(cs.len() as int) =~= cs@);
    if !needs {
        return field.to_owned();
    }
    let mut out: Vec<char> = Vec::new();
    out.push('"');
    let mut j: usize = 0;
    while j < cs.len()
        invariant
            cs@ == field@,
            j <= cs.len(),
            out@ == seq!['"'] + doubled_quotes(cs@.take(j as int)),
        decreases cs.len() - j,
    {
        let c = cs[j];
        assert(cs@.take(j + 1).drop_last() =~= cs@.take(j as int));
        if c == '"' {
            out.push('"');
            out.push('"');
        } else {
            out.push(c);
        }
        j += 1;
        assert(out@ =~= seq!['"'] + doubled_quotes(cs@.take(j as int)));
    }
    out.push('"');
    string_of(&out)
}

/// One transaction of an export, as the store gives it. `amount` is the amount in the
/// currency unit with two decimals, as written by the caller.
#[derive(Debug, Clone)]
pub struct ExportRow {
    pub occurred_at: String,
    pub wallet_name: String,
    pub type_: String,
    pub amount: String,
    pub source_type: String,
    pub category: Option<String>,
    pub notes: Option<String>,
}

/// The text of an optional field: empty when absent.
pub open spec fn text_or_empty(o: Option<String>) -> Seq<char> {
    match o {
        Some(s) => s@,
        None => Seq::empty(),
    }
}

/// The line of the CSV for one row: date, wallet, type, amount, source, category and
/// notes, with the wallet name, category and notes escaped.
pub open spec fn csv_line(row: ExportRow) -> Seq<char> {
    row.occurred_at@ + ","@ + csv_field(row.wallet_name@) + ","@ + row.type_@ + ","@ + row.amount@
        + ","@ + row.source_type@ + ","@ + csv_field(text_or_empty(row.category)) + ","@
        + csv_field(text_or_empty(row.notes)) + "\n"@
}

/// The lines of the CSV for the rows, in order.
pub open spec fn csv_lines(rows: Seq<ExportRow>) -> Seq<char>
    decreases rows.len(),
{
    if rows.len() == 0 {
        Seq::empty()
    } else {
        csv_lines(rows.drop_last()) + csv_line(rows.last())
    }
}

/// The header line of the CSV.
pub open spec fn csv_header() -> Seq<char> {
    "Date,Wallet,Type,Amount,Source,Category,Notes\n"@
}

fn line_of(row: &ExportRow) -> (s: String)
    ensures
        s@ == csv_line(*row),
{
    let mut s = row.occurred_at.clone();
    append_text(&mut s, ",");
    append_text(&mut s, escape_csv_field(row.wallet_name.as_str()).as_str());
    append_text(&mut s, ",");
    append_text(&mut s, row.type_.as_str());
    append_text(&mut s, ",");
    append_text(&mut s, row.amount.as_str());
    append_text(&mut s, ",");
    append_text(&mut s, row.source_type.as_str());
    append_text(&mut s, ",");
    let category = match &row.category {
        Some(c) => escape_csv_field(c.as_str()),
        None => escape_csv_field(""),
    };
    append_text(&mut s, category.as_str());
    append_text(&mut s, ",");
    let notes = match &row.notes {
        Some(n) => escape_csv_field(n.as_str()),
        None => escape_csv_field(""),
    };
    append_text(&mut s, notes.as_str());
    append_text(&mut s, "\n");
    proof {
        reveal_strlit("");
    }
    assert(s@ =~= csv_line(*row));
    s
}

/// The CSV of an export: the header line, then one line per row in order.
pub fn export_transactions_csv(rows: &Vec<ExportRow>) -> (s: String)
    ensures
        s@ == csv_header() + csv_lines(rows@),
{
    let mut s = "Date,Wallet,Type,Amount,Source,Category,Notes\n".to_owned();
    let mut i: usize = 0;
    while i < rows.len()
        invariant
            i <= rows.len(),
            s@ == csv_header() + csv_lines(rows@.take(i as int)),
        decreases rows.len() - i,
    {
        let line = line_of(&rows[i]);
        append_text(&mut s, line.as_str());
        assert(rows@.take(i + 1).drop_last() =~= rows@.take(i as int));
        i += 1;
    }
    assert(rows@.take(rows.len() as int) =~= rows@);
    s
}

/// `s` with every pair of double quotes read as one (the reverse of doubling them).
pub open spec fn undoubled(s: Seq<char>) -> Seq<char>
    decreases s.len(),
{
    if s.len() == 0 {
        Seq::empty()
    } else if s.len() >= 2 && s.last() == '"' && s[s.len() - 2] == '"' {
        undoubled(s.take(s.len() - 2)) + seq!['"']
    } else {
        undoubled(s.drop_last()) + seq![s.last()]
    }
}

/// A field as a CSV reader takes it back: a quoted field without its quotes and with its
/// doubled quotes read as one; any other field as it stands.
pub open spec fn csv_read_field(s: Seq<char>) -> Seq<char> {
    if s.len() >= 2 && s[0] == '"' && s.last() == '"' {
        undoubled(s.subrange(1, s.len() - 1))
    } else {
        s
    }
}

/// Undoing the doubling of quotes gives the text back.
proof fn lemma_undoubled_doubled(f: Seq<char>)
    ensures
        undoubled(doubled_quotes(f)) == f,
    decreases f.len(),
{
    if f.len() > 0 {
        let g = f.drop_last();
        let c = f.last();
        lemma_undoubled_doubled(g);
        let d = doubled_quotes(f);
        if c == '"' {
            assert(d.take(d.len() - 2) =~= doubled_quotes(g));
        } else {
            assert(d.drop_last() =~= doubled_quotes(g));
        }
        assert(f =~= g.push(c));
    }
}

/// An escaped field reads back as the field itself, whatever commas, quotes or line
/// feeds it holds: escaping never corrupts the export.
pub proof fn law_escaped_field_reads_back(f: Seq<char>)
    ensures
        csv_read_field(csv_field(f)) == f,
{
    lemma_undoubled_doubled(f);
    if needs_quoting(f) {
        let s = csv_field(f);
        assert(s.subrange(1, s.len() - 1) =~= doubled_quotes(f));
    } else if f.len() > 0 {
        assert(f.contains(f[0]));
    }
}

/// How one character of a field stands inside quotes: a quote doubled, anything else as
/// it is.
pub open spec fn quoted_char(c: char) -> Seq<char> {
    if c == '"' {
        seq!['"', '"']
    } else {
        seq![c]
    }
}

/// Doubling the quotes of a field, seen from its front.
proof fn lemma_doubled_front(f: Seq<char>)
    requires
        f.len() > 0,
    ensures
        doubled_quotes(f) == quoted_char(f[0]) + doubled_quotes(f.drop_first()),
    decreases f.len(),
{
    if f.len() == 1 {
        assert(f.drop_last() =~= Seq::<char>::empty());
        assert(f.drop_first() =~= Seq::<char>::empty());
        assert(doubled_quotes(f) =~= quoted_char(f[0]));
    } else {
        lemma_doubled_front(f.drop_last());
        assert(f.drop_first().drop_last() =~= f.drop_last().drop_first());
        assert(f.drop_first().last() == f.last());
        assert(f.drop_last()[0] == f[0]);
        assert(doubled_quotes(f) =~= quoted_char(f[0]) + doubled_quotes(f.drop_first()));
    }
}

/// The number of characters of `s` before its first comma (all of them when it has none).
pub open spec fn till_comma(s: Seq<char>) -> nat
    decreases s.len(),
{
    if s.len() == 0 || s[0] == ',' {
        0
    } else {
        1 + till_comma(s.drop_first())
    }
}

/// The length of the quoted text at the front of `s` (just after an opening quote): up to
/// the first quote that is not doubled.
pub open spec fn quoted_len(s: Seq<char>) -> nat
    decreases s.len(),
{
    if s.len() == 0 {
        0
    } else if s[0] == '"' {
        if s.len() >= 2 && s[1] == '"' {
            2 + quoted_len(s.skip(2))
        } else {
            0
        }
    } else {
        1 + quoted_len(s.drop_first())
    }
}

/// The first field a CSV reader takes from the front of `s`, and what follows it: a
/// quoted field up to its closing quote, its doubled quotes read as one; any other field
/// up to the first comma.
pub open spec fn csv_next_field(s: Seq<char>) -> (Seq<char>, Seq<char>) {
    if s.len() > 0 && s[0] == '"' {
        let body = s.drop_first();
        let n = quoted_len(body);
        (undoubled(body.take(n as int)), body.skip(n + 1int))
    } else {
        let n = till_comma(s);
        (s.take(n as int), s.skip(n as int))
    }
}

/// The fields a CSV reader takes from one line (without its line feed): field after field,
/// as long as a comma follows.
pub open spec fn csv_read_line(s: Seq<char>) -> Seq<Seq<char>>
    decreases s.len(),
{
    let (f, rest) = csv_next_field(s);
    if rest.len() > 0 && rest[0] == ',' && rest.len() <= s.len() {
        seq![f] + csv_read_line(rest.drop_first())
    } else {
        seq![f]
    }
}

/// Whether a field stands in a line as it is and still reads back: it holds no comma and
/// does not start with a double quote.
pub open spec fn plain_field(f: Seq<char>) -> bool {
    !f.contains(',') && (f.len() == 0 || f[0] != '"')
}

/// Whether `t` may follow a field: nothing, or a comma and more.
pub open spec fn field_end(t: Seq<char>) -> bool {
    t.len() == 0 || t[0] == ','
}

proof fn lemma_till_comma(f: Seq<char>, t: Seq<char>)
    requires
        !f.contains(','),
        field_end(t),
    ensures
        till_comma(f + t) == f.len(),
    decreases f.len(),
{
    if f.len() == 0 {
        assert(f + t =~= t);
    } else {
        assert((f + t)[0] == f[0]);
        assert(f.contains(f[0]));
        assert((f + t).drop_first() =~= f.drop_first() + t);
        assert forall|c: char| f.drop_first().contains(c) implies f.contains(c) by {
            let k = choose|k: int| 0 <= k < f.drop_first().len() && f.drop_first()[k] == c;
            assert(f[k + 1] == c);
        }
        lemma_till_comma(f.drop_first(), t);
    }
}

/// A plain field is read back as it stands.
proof fn lemma_read_plain(f: Seq<char>, t: Seq<char>)
    requires
        plain_field(f),
        field_end(t),
    ensures
        csv_next_field(f + t) == (f, t),
{
    lemma_till_comma(f, t);
    if f.len() == 0 {
        assert(f + t =~= t);
    } else {
        assert((f + t)[0] == f[0]);
    }
    assert((f + t).take(f.len() as int) =~= f);
    assert((f + t).skip(f.len() as int) =~= t);
}

proof fn lemma_quoted_len(f: Seq<char>, t: Seq<char>)
    requires
        t.len() == 0 || t[0] != '"',
    ensures
        quoted_len(doubled_quotes(f) + seq!['"'] + t) == doubled_quotes(f).len(),
    decreases f.len(),
{
    let s = doubled_quotes(f) + seq!['"'] + t;
    if f.len() == 0 {
        assert(doubled_quotes(f) =~= Seq::<char>::empty());
        assert(s[0] == '"');
        if s.len() >= 2 {
            assert(s[1] == t[0]);
        }
    } else {
        lemma_doubled_front(f);
        let g = f.drop_first();
        lemma_quoted_len(g, t);
        if f[0] == '"' {
            assert(s[0] == '"' && s[1] == '"');
            assert(s.skip(2) =~= doubled_quotes(g) + seq!['"'] + t);
        } else {
            assert(s[0] == f[0]);
            assert(s.drop_first() =~= doubled_quotes(g) + seq!['"'] + t);
        }
    }
}

/// An escaped field is read back as the field itself.
proof fn lemma_read_escaped(f: Seq<char>, t: Seq<char>)
    requires
        field_end(t),
    ensures
        csv_next_field(csv_field(f) + t) == (f, t),
{
    if needs_quoting(f) {
        let d = doubled_quotes(f);
        let s = csv_field(f) + t;
        assert(s[0] == '"');
        let body = s.drop_first();
        assert(body =~= d + seq!['"'] + t);
        lemma_quoted_len(f, t);
        assert(body.take(d.len() as int) =~= d);
        assert(body.skip(d.len() + 1int) =~= t);
        lemma_undoubled_doubled(f);
    } else {
        assert(!f.contains(','));
        if f.len() > 0 {
            assert(f.contains(f[0]));
        }
        lemma_read_plain(f, t);
    }
}

/// Reading a field that a comma follows continues with the rest of the line.
proof fn lemma_read_step(e: Seq<char>, f: Seq<char>, t: Seq<char>)
    requires
        csv_next_field(e + seq![','] + t) == (f, seq![','] + t),
    ensures
        csv_read_line(e + seq![','] + t) == seq![f] + csv_read_line(t),
{
    let s = e + seq![','] + t;
    let rest = seq![','] + t;
    assert(rest.drop_first() =~= t);
    assert(rest.len() <= s.len());
}

/// Reading the last field of a line ends the line.
proof fn lemma_read_last(e: Seq<char>, f: Seq<char>)
    requires
        csv_next_field(e) == (f, Seq::<char>::empty()),
    ensures
        csv_read_line(e) == seq![f],
{
}

/// A line of the export reads back as the row's seven fields, whatever the wallet name,
/// category and notes hold, provided the date, type, amount and source hold no comma and
/// do not start with a double quote (these are written as they are).
pub proof fn law_export_line_reads_back(row: ExportRow)
    requires
        plain_field(row.occurred_at@),
        plain_field(row.type_@),
        plain_field(row.amount@),
        plain_field(row.source_type@),
    ensures
        csv_read_line(csv_line(row).drop_last()) == seq![
            row.occurred_at@,
            row.wallet_name@,
            row.type_@,
            row.amount@,
            row.source_type@,
            text_or_empty(row.category),
            text_or_empty(row.notes),
        ],
{
    let c = seq![','];
    let e7 = csv_field(text_or_empty(row.notes));
    let s7 = e7;
    let s6 = csv_field(text_or_empty(row.category)) + c + s7;
    let s5 = row.source_type@ + c + s6;
    let s4 = row.amount@ + c + s5;
    let s3 = row.type_@ + c + s4;
    let s2 = csv_field(row.wallet_name@) + c + s3;
    let s1 = row.occurred_at@ + c + s2;
    reveal_strlit(",");
    reveal_strlit("\n");
    assert(","@ =~= c);
    assert(csv_line(row) =~= s1 + seq!['\n']);
    assert(csv_line(row).drop_last() =~= s1);
    assert(s7 + Seq::<char>::empty() =~= s7);
    lemma_read_escaped(text_or_empty(row.notes), Seq::<char>::empty());
    lemma_read_last(s7, text_or_empty(row.notes));
    assert(field_end(c + s7));
    lemma_read_escaped(text_or_empty(row.category), c + s7);
    assert(csv_field(text_or_empty(row.category)) + (c + s7) =~= s6);
    lemma_read_step(csv_field(text_or_empty(row.category)), text_or_empty(row.category), s7);
    lemma_read_plain(row.source_type@, c + s6);
    assert(row.source_type@ + (c + s6) =~= s5);
    lemma_read_step(row.source_type@, row.source_type@, s6);
    lemma_read_plain(row.amount@, c + s5);
    assert(row.amount@ + (c + s5) =~= s4);
    lemma_read_step(row.amount@, row.amount@, s5);
    lemma_read_plain(row.type_@, c + s4);
    assert(row.type_@ + (c + s4) =~= s3);
    lemma_read_step(row.type_@, row.type_@, s4);
    lemma_read_escaped(row.wallet_name@, c + s3);
    assert(csv_field(row.wallet_name@) + (c + s3) =~= s2);
    lemma_read_step(csv_field(row.wallet_name@), row.wallet_name@, s3);
    lemma_read_plain(row.occurred_at@, c + s2);
    assert(row.occurred_at@ + (c + s2) =~= s1);
    lemma_read_step(row.occurred_at@, row.occurred_at@, s2);
    assert(csv_read_line(s1) =~= seq![
        row.occurred_at@,
        row.wallet_name@,
        row.type_@,
        row.amount@,
        row.source_type@,
        text_or_empty(row.category),
        text_or_empty(row.notes),
    ]);
}

} // verus!
