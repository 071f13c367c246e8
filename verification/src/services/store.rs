//! What every service does with the answers of the store: a looked-up record that
//! must exist, an update that must touch a row, and the default page of a listing.
use vstd::prelude::*;
use crate::error::{AppError, fails_not_found};

verus! {

/// The record that was looked up, or `<RESOURCE>_NOT_FOUND`.
pub fn require_found<T>(found: Option<T>, resource: &str) -> (r: Result<T, AppError>)
    ensures
        found matches Some(x) ==> r == Ok::<T, AppError>(x),
        found is None ==> fails_not_found(r, resource@),
{
    match found {
        Some(x) => Ok(x),
        None => Err(AppError::not_found(resource)),
    }
}

/// Succeeds when an update touched at least one row; else `<RESOURCE>_NOT_FOUND`.
pub fn require_affected(rows_affected: u64, resource: &str) -> (r: Result<(), AppError>)
    ensures
        rows_affected > 0 ==> r is Ok,
        rows_affected == 0 ==> fails_not_found(r, resource@),
{
    if rows_affected == 0 {
        Err(AppError::not_found(resource))
    } else {
        Ok(())
    }
}

/// The limit and offset of a listing: 50 and 0 unless given.
pub fn page(limit: Option<i64>, offset: Option<i64>) -> (r: (i64, i64))
    ensures
        r.0 == match limit {
            Some(l) => l,
            None => 50,
        },
        r.1 == match offset {
            Some(o) => o,
            None => 0,
        },
{
    (limit.unwrap_or(50), offset.unwrap_or(0))
}

/// An argument bound to a `?` of a statement.
#[derive(Debug, Clone)]
pub enum SqlArg {
    Null,
    Int(i64),
    /// A number that is no `i64`, in its JSON text; the store binds it as a float.
    Real(String),
    Text(String),
}

/// The mathematical value of an `SqlArg`.
pub enum SqlArgView {
    Null,
    Int(i64),
    Real(Seq<char>),
    Text(Seq<char>),
}

impl View for SqlArg {
    type V = SqlArgView;

    open spec fn view(&self) -> SqlArgView {
        match self {
            SqlArg::Null => SqlArgView::Null,
            SqlArg::Int(n) => SqlArgView::Int(*n),
            SqlArg::Real(s) => SqlArgView::Real(s@),
            SqlArg::Text(s) => SqlArgView::Text(s@),
        }
    }
}

/// The arguments of a statement, in order.
pub open spec fn args_view(args: Seq<SqlArg>) -> Seq<SqlArgView> {
    Seq::new(args.len(), |k: int| args[k]@)
}

/// `c` when `b` holds, else nothing.
pub open spec fn clause_if(b: bool, c: Seq<char>) -> Seq<char> {
    if b {
        c
    } else {
        Seq::empty()
    }
}

/// The text argument for an optional filter value, if it is given.
pub open spec fn opt_text_arg(o: Option<String>) -> Seq<SqlArgView> {
    match o {
        Some(s) => seq![SqlArgView::Text(s@)],
        None => Seq::empty(),
    }
}

/// The integer argument for an optional filter value, if it is given.
pub open spec fn opt_int_arg(o: Option<i64>) -> Seq<SqlArgView> {
    match o {
        Some(n) => seq![SqlArgView::Int(n)],
        None => Seq::empty(),
    }
}

/// Appends a text argument when a value is given.
pub fn push_opt_text(args: &mut Vec<SqlArg>, o: &Option<String>)
    ensures
        args_view(final(args)@) == args_view(old(args)@) + opt_text_arg(*o),
{
    let ghost before = args@;
    if let Some(s) = o {
        args.push(SqlArg::Text(s.clone()));
        assert(args_view(args@) =~= args_view(before) + opt_text_arg(*o));
    } else {
        assert(args_view(args@) =~= args_view(before) + opt_text_arg(*o));
    }
}

/// Appends an integer argument when a value is given.
pub fn push_opt_int(args: &mut Vec<SqlArg>, o: Option<i64>)
    ensures
        args_view(final(args)@) == args_view(old(args)@) + opt_int_arg(o),
{
    let ghost before = args@;
    if let Some(n) = o {
        args.push(SqlArg::Int(n));
    }
    assert(args_view(args@) =~= args_view(before) + opt_int_arg(o));
}

} // verus!
