//! Heuristic account suggestions: the context text is scanned, ignoring ASCII
//! case, for four keyword groups (salary, food, transportation, investment),
//! and every matching group contributes its fixed suggestion list, in that
//! order. When no group matches, a fixed default list is returned.
//!
//! The transaction template builds on the same suggestions: it renders a
//! two-posting skeleton from the last two suggestions for the concatenated
//! payee and narration.

use vstd::prelude::*;
use vstd::string::StrSliceExecFns;
use vstd::string::StringExecFns;
use crate::text::lower_code;

verus! {

/// Whether the keyword `k` occurs at position `i` of `t`, ignoring ASCII
/// case.
pub open spec fn matches_at(t: Seq<char>, k: Seq<char>, i: int) -> bool {
    forall|j: int| 0 <= j < k.len() ==> lower_code(t[i + j]) == lower_code(#[trigger] k[j])
}

/// Whether the keyword `k` occurs anywhere in `t`, ignoring ASCII case.
pub open spec fn contains_ci_spec(t: Seq<char>, k: Seq<char>) -> bool {
    exists|i: int| 0 <= i && i + k.len() <= t.len() && #[trigger] matches_at(t, k, i)
}

/// Whether the two characters are equal ignoring ASCII case.
fn char_ci_eq(a: char, b: char) -> (r: bool)
    ensures
        r == (lower_code(a) == lower_code(b)),
{
    let x = a as u32;
    let y = b as u32;
    let xl = if 65 <= x && x <= 90 {
        x + 32
    } else {
        x
    };
    let yl = if 65 <= y && y <= 90 {
        y + 32
    } else {
        y
    };
    xl == yl
}

/// Case-insensitive substring search, the keyword checked at every
/// position of the text.
pub fn contains_ci(t: &str, kw: &str) -> (r: bool)
    ensures
        r == contains_ci_spec(t@, kw@),
{
    let n = t.unicode_len();
    let m = kw.unicode_len();
    if m > n {
        return false;
    }
    let mut i: usize = 0;
    while i <= n - m
        invariant
            n == t@.len(),
            m == kw@.len(),
            m <= n,
            0 <= i <= n - m + 1,
            forall|p: int| 0 <= p < i ==> !matches_at(t@, kw@, p),
        decreases n + 1 - i,
    {
        let mut j: usize = 0;
        let mut hit = true;
        while j < m
            invariant
                n == t@.len(),
                m == kw@.len(),
                m <= n,
                0 <= i <= n - m,
                0 <= j <= m,
                hit == forall|q: int| 0 <= q < j ==> lower_code(t@[i + q]) == lower_code(#[trigger] kw@[q]),
            decreases m - j,
        {
            if !char_ci_eq(t.get_char(i + j), kw.get_char(j)) {
                hit = false;
                j = m;
            } else {
                j += 1;
            }
        }
        if hit {
            assert(matches_at(t@, kw@, i as int));
            return true;
        }
        assert(!matches_at(t@, kw@, i as int));
        i += 1;
    }
    false
}

/// Whether the context mentions the salary keyword group.
pub open spec fn salary_hit(t: Seq<char>) -> bool {
    contains_ci_spec(t, "salary"@) || contains_ci_spec(t, "wage"@) || contains_ci_spec(t, "payroll"@)
}

/// Whether the context mentions the food keyword group.
pub open spec fn food_hit(t: Seq<char>) -> bool {
    contains_ci_spec(t, "food"@) || contains_ci_spec(t, "restaurant"@) || contains_ci_spec(t, "grocery"@)
}

/// Whether the context mentions the transportation keyword group.
pub open spec fn transport_hit(t: Seq<char>) -> bool {
    contains_ci_spec(t, "gas"@) || contains_ci_spec(t, "fuel"@) || contains_ci_spec(t, "transportation"@)
}

/// Whether the context mentions the investment keyword group.
pub open spec fn investment_hit(t: Seq<char>) -> bool {
    contains_ci_spec(t, "stock"@) || contains_ci_spec(t, "investment"@) || contains_ci_spec(t, "dividend"@)
}

pub open spec fn salary_suggestions() -> Seq<Seq<char>> {
    seq!["Income:Salary"@, "Assets:Checking"@]
}

pub open spec fn food_suggestions() -> Seq<Seq<char>> {
    seq!["Expenses:Food:Restaurant"@, "Expenses:Food:Groceries"@, "Assets:Checking"@]
}

pub open spec fn transport_suggestions() -> Seq<Seq<char>> {
    seq!["Expenses:Transportation:Gas"@, "Assets:Checking"@]
}

pub open spec fn investment_suggestions() -> Seq<Seq<char>> {
    seq!["Assets:Investment:Stocks"@, "Income:Dividends"@, "Assets:Checking"@]
}

pub open spec fn default_suggestions() -> Seq<Seq<char>> {
    seq!["Assets:Checking"@, "Expenses:Miscellaneous"@, "Income:Other"@]
}

/// The suggestions contributed by the matching keyword groups, in the fixed
/// group order.
pub open spec fn grouped_suggestions(t: Seq<char>) -> Seq<Seq<char>> {
    (if salary_hit(t) {
        salary_suggestions()
    } else {
        Seq::empty()
    }) + (if food_hit(t) {
        food_suggestions()
    } else {
        Seq::empty()
    }) + (if transport_hit(t) {
        transport_suggestions()
    } else {
        Seq::empty()
    }) + (if investment_hit(t) {
        investment_suggestions()
    } else {
        Seq::empty()
    })
}

/// What `suggest_accounts` returns for a context: the grouped suggestions,
/// or the default list when no group matched.
pub open spec fn suggest_spec(t: Seq<char>) -> Seq<Seq<char>> {
    if grouped_suggestions(t).len() == 0 {
        default_suggestions()
    } else {
        grouped_suggestions(t)
    }
}

/// Any context that mentions a salary-group keyword is suggested both the
/// salary income account and the checking account.
pub proof fn lemma_salary_context_suggestions(t: Seq<char>)
    requires
        salary_hit(t),
    ensures
        suggest_spec(t).contains("Income:Salary"@),
        suggest_spec(t).contains("Assets:Checking"@),
{
    let s = suggest_spec(t);
    assert(s[0] == "Income:Salary"@);
    assert(s[1] == "Assets:Checking"@);
    assert(s.contains("Income:Salary"@)) by {
        assert(s[0] == "Income:Salary"@);
    }
    assert(s.contains("Assets:Checking"@)) by {
        assert(s[1] == "Assets:Checking"@);
    }
}

/// Suggests likely ledger accounts for a free-form context string.
pub fn suggest_accounts(context: &str) -> (r: Vec<String>)
    ensures
        r.deep_view() == suggest_spec(context@),
        r@.len() >= 2,
{
    let mut out: Vec<String> = Vec::new();
    if contains_ci(context, "salary") || contains_ci(context, "wage") || contains_ci(context, "payroll") {
        out.push(String::from_str("Income:Salary"));
        out.push(String::from_str("Assets:Checking"));
    }
    let ghost after_salary = out.deep_view();
    proof {
        assert(after_salary =~= if salary_hit(context@) {
            salary_suggestions()
        } else {
            Seq::empty()
        });
    }
    if contains_ci(context, "food") || contains_ci(context, "restaurant") || contains_ci(context, "grocery") {
        out.push(String::from_str("Expenses:Food:Restaurant"));
        out.push(String::from_str("Expenses:Food:Groceries"));
        out.push(String::from_str("Assets:Checking"));
    }
    let ghost after_food = out.deep_view();
    proof {
        assert(after_food =~= after_salary + if food_hit(context@) {
            food_suggestions()
        } else {
            Seq::empty()
        });
    }
    if contains_ci(context, "gas") || contains_ci(context, "fuel") || contains_ci(context, "transportation") {
        out.push(String::from_str("Expenses:Transportation:Gas"));
        out.push(String::from_str("Assets:Checking"));
    }
    let ghost after_transport = out.deep_view();
    proof {
        assert(after_transport =~= after_food + if transport_hit(context@) {
            transport_suggestions()
        } else {
            Seq::empty()
        });
    }
    if contains_ci(context, "stock") || contains_ci(context, "investment") || contains_ci(context, "dividend") {
        out.push(String::from_str("Assets:Investment:Stocks"));
        out.push(String::from_str("Income:Dividends"));
        out.push(String::from_str("Assets:Checking"));
    }
    proof {
        assert(out.deep_view() =~= after_transport + if investment_hit(context@) {
            investment_suggestions()
        } else {
            Seq::empty()
        });
        assert(out.deep_view() =~= grouped_suggestions(context@));
    }
    if out.is_empty() {
        out.push(String::from_str("Assets:Checking"));
        out.push(String::from_str("Expenses:Miscellaneous"));
        out.push(String::from_str("Income:Other"));
        proof {
            assert(out.deep_view() =~= default_suggestions());
        }
    }
    out
}

/// The rendered transaction skeleton for a payee and narration: a
/// placeholder date and flag, the payee and narration quoted, and the last
/// two suggested accounts for their concatenation as the two postings.
pub open spec fn template_spec(p: Seq<char>, n: Seq<char>) -> Seq<char> {
    let sugg = suggest_spec(p + " "@ + n);
    "2024-01-01 * \""@ + p + "\" \""@ + n + "\"\n  "@ + sugg[sugg.len() - 2] + "  \n  "@
        + sugg[sugg.len() - 1] + " "@
}

/// Renders a two-posting transaction template for the payee and narration.
pub fn generate_transaction_template(payee: &str, narration: &str) -> (r: String)
    ensures
        r@ == template_spec(payee@, narration@),
{
    let mut context = String::from_str(payee);
    context.append(" ");
    context.append(narration);
    let suggestions = suggest_accounts(context.as_str());
    let len = suggestions.len();
    let debit = &suggestions[len - 2];
    let credit = &suggestions[len - 1];
    proof {
        assert(debit@ == suggest_spec(payee@ + " "@ + narration@)[len - 2]);
        assert(credit@ == suggest_spec(payee@ + " "@ + narration@)[len - 1]);
    }
    let mut out = String::from_str("2024-01-01 * \"");
    out.append(payee);
    out.append("\" \"");
    out.append(narration);
    out.append("\"\n  ");
    out.append(debit.as_str());
    out.append("  \n  ");
    out.append(credit.as_str());
    out.append(" ");
    out
}

} // verus!
