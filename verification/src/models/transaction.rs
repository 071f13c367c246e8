use vstd::prelude::*;

verus! {

/// Money in or money out.
#[derive(Debug, Clone, Copy, PartialEq, Eq)]
pub enum TransactionType {
    Credit,
    Debit,
}

/// What caused a transaction.
#[derive(Debug, Clone, Copy, PartialEq, Eq)]
pub enum SourceType {
    Allowance,
    Request,
    Manual,
    Adjustment,
}

/// A movement of money into or out of a wallet.
#[derive(Debug, Clone)]
pub struct Transaction {
    pub id: i64,
    pub uuid: String,
    pub family_id: i64,
    pub wallet_id: i64,
    pub type_: String,
    pub amount_cents: i64,
    pub source_type: String,
    pub source_id: Option<i64>,
    pub category: Option<String>,
    pub occurred_at: String,
    pub notes: Option<String>,
    pub sync_version: i64,
    pub last_synced_at: Option<String>,
    pub is_deleted: i64,
    pub created_at: String,
}

} // verus!

verus! {

/// The values of a transaction that a service asks the store to insert; the store adds
/// the id, uuid and time stamps.
#[derive(Debug, Clone)]
pub struct NewTransaction {
    pub family_id: i64,
    pub wallet_id: i64,
    pub type_: String,
    pub amount_cents: i64,
    pub source_type: String,
    pub source_id: Option<i64>,
    pub category: Option<String>,
    pub notes: Option<String>,
}

/// `credit` and `debit` are different texts.
pub proof fn lemma_type_names_distinct()
    ensures
        "credit"@ != "debit"@,
{
    reveal_strlit("credit");
    reveal_strlit("debit");
    assert("credit"@[0] != "debit"@[0]);
}

/// By how much a transaction of the given type and amount changes its wallet's
/// balance: up for a credit, down for a debit.
pub open spec fn signed_amount(type_: Seq<char>, amount_cents: int) -> int {
    if type_ == "credit"@ {
        amount_cents
    } else if type_ == "debit"@ {
        -amount_cents
    } else {
        0
    }
}

impl TransactionType {
    /// The type a name stands for, if any (`credit`, `debit`).
    pub open spec fn named(s: Seq<char>) -> Option<TransactionType> {
        if s == "credit"@ {
            Some(TransactionType::Credit)
        } else if s == "debit"@ {
            Some(TransactionType::Debit)
        } else {
            None
        }
    }

    /// The type a name stands for, if any.
    pub fn from_name(s: &str) -> (t: Option<TransactionType>)
        ensures
            t == TransactionType::named(s@),
    {
        if crate::text::text_eq(s, "credit") {
            Some(TransactionType::Credit)
        } else if crate::text::text_eq(s, "debit") {
            Some(TransactionType::Debit)
        } else {
            None
        }
    }
}

/// The balance the store recomputes from a wallet's transactions: credits added, all
/// other amounts taken away.
pub open spec fn recomputed_balance(types: Seq<Seq<char>>, amounts: Seq<int>) -> int
    decreases types.len(),
{
    if types.len() == 0 || amounts.len() == 0 {
        0
    } else {
        recomputed_balance(types.drop_last(), amounts.drop_last()) + if types.last()
            == "credit"@ {
            amounts.last()
        } else {
            -amounts.last()
        }
    }
}

/// A balance kept from zero by the services, each step moving it by the signed amount of
/// the credit or debit it records, equals the balance recomputed from those transactions.
pub proof fn law_balance_matches_ledger(
    types: Seq<Seq<char>>,
    amounts: Seq<int>,
    balances: Seq<int>,
)
    requires
        types.len() == amounts.len(),
        balances.len() == types.len() + 1,
        balances[0] == 0,
        forall|i: int| 0 <= i < types.len() ==> #[trigger] types[i] == "credit"@ || types[i] == "debit"@,
        forall|i: int|
            0 <= i < types.len() ==> #[trigger] balances[i + 1] == balances[i] + signed_amount(
                types[i],
                amounts[i],
            ),
    ensures
        balances.last() == recomputed_balance(types, amounts),
    decreases types.len(),
{
    lemma_type_names_distinct();
    if types.len() > 0 {
        let n = types.len() - 1;
        assert forall|i: int| 0 <= i < types.drop_last().len() implies #[trigger] types.drop_last()[i]
            == "credit"@ || types.drop_last()[i] == "debit"@ by {
            assert(types.drop_last()[i] == types[i]);
        }
        assert forall|i: int| 0 <= i < types.drop_last().len() implies #[trigger] balances.drop_last()[i
            + 1] == balances.drop_last()[i] + signed_amount(
            types.drop_last()[i],
            amounts.drop_last()[i],
        ) by {
            assert(balances[i + 1] == balances[i] + signed_amount(types[i], amounts[i]));
        }
        law_balance_matches_ledger(types.drop_last(), amounts.drop_last(), balances.drop_last());
        assert(balances[n + 1] == balances[n] + signed_amount(types[n], amounts[n]));
        assert(types.last() == "credit"@ || types.last() == "debit"@);
    }
}

} // verus!
