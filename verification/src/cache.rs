//! The assistant's per-session state: a cache of recently seen accounts and
//! payees, rebuilt wholesale from a text buffer on every update, and a fixed
//! list of known currencies. Both rebuilt lists keep the order of first
//! appearance and hold each entry once.

use vstd::prelude::*;
use vstd::string::StrSliceExecFns;
use vstd::string::StringExecFns;
use crate::text::find_char;
use crate::text::has_char;
use crate::text::scan_non_ws;
use crate::text::scan_to_ws;
use crate::text::split_lines;
use crate::text::contains_char;
use crate::text::find_char_str;
use crate::text::scan_non_ws_str;
use crate::text::scan_to_ws_str;
use crate::text::split_lines_str;
use crate::text::str_eq;
use crate::validate::indented;

verus! {

/// The heuristic ledger assistant's session state.
pub struct Assistant {
    /// The single bucket of recently seen account names.
    pub accounts: Vec<String>,
    /// Recently seen payee names.
    pub payees: Vec<String>,
    /// The currencies the assistant knows about.
    pub currencies: Vec<String>,
}

/// The currencies preloaded into a fresh assistant.
pub open spec fn default_currencies() -> Seq<Seq<char>> {
    seq!["USD"@, "EUR"@, "GBP"@, "JPY"@, "CAD"@, "AUD"@, "BTC"@, "ETH"@, "AAPL"@]
}

/// Appends `x` unless it is already present.
pub open spec fn push_unique(s: Seq<Seq<char>>, x: Seq<char>) -> Seq<Seq<char>> {
    if s.contains(x) {
        s
    } else {
        s.push(x)
    }
}

/// The account name a raw line contributes to the cache: for a line
/// indented by at least two spaces and holding a colon, the first
/// whitespace-delimited token after the two-space indent.
pub open spec fn account_candidate(raw: Seq<char>) -> Option<Seq<char>> {
    if indented(raw) && has_char(raw, ':') {
        let s = scan_non_ws(raw, 2);
        if s >= raw.len() {
            None
        } else {
            Some(raw.subrange(s, scan_to_ws(raw, s)))
        }
    } else {
        None
    }
}

/// The payee a raw line contributes to the cache: for a line holding a
/// transaction flag, the non-empty text between its first two double
/// quotes.
pub open spec fn payee_candidate(raw: Seq<char>) -> Option<Seq<char>> {
    if has_char(raw, '*') || has_char(raw, '!') {
        let q1 = find_char(raw, '"');
        if !(0 <= q1 < raw.len()) {
            None
        } else {
            let rest = raw.subrange(q1 + 1, raw.len() as int);
            let q2 = find_char(rest, '"');
            if !(0 <= q2 < rest.len()) {
                None
            } else if q2 == 0 {
                None
            } else {
                Some(rest.subrange(0, q2))
            }
        }
    } else {
        None
    }
}

/// The distinct account names contributed by the first `k` lines, in order
/// of first appearance.
pub open spec fn accounts_upto(lines: Seq<Seq<char>>, k: int) -> Seq<Seq<char>>
    decreases k,
{
    if k <= 0 {
        Seq::empty()
    } else {
        match account_candidate(lines[k - 1]) {
            Some(a) => push_unique(accounts_upto(lines, k - 1), a),
            None => accounts_upto(lines, k - 1),
        }
    }
}

/// The distinct payees contributed by the first `k` lines, in order of
/// first appearance.
pub open spec fn payees_upto(lines: Seq<Seq<char>>, k: int) -> Seq<Seq<char>>
    decreases k,
{
    if k <= 0 {
        Seq::empty()
    } else {
        match payee_candidate(lines[k - 1]) {
            Some(p) => push_unique(payees_upto(lines, k - 1), p),
            None => payees_upto(lines, k - 1),
        }
    }
}

/// The account cache rebuilt from a whole text.
pub open spec fn cached_accounts(content: Seq<char>) -> Seq<Seq<char>> {
    accounts_upto(split_lines(content), split_lines(content).len() as int)
}

/// The payee cache rebuilt from a whole text.
pub open spec fn cached_payees(content: Seq<char>) -> Seq<Seq<char>> {
    payees_upto(split_lines(content), split_lines(content).len() as int)
}

/// How one `update_cache` call relates the state before it to the state
/// after it: both caches are functions of the content alone, and the
/// currency list is untouched.
pub open spec fn cache_rebuilt(pre: Assistant, post: Assistant, content: Seq<char>) -> bool {
    &&& post.accounts.deep_view() == cached_accounts(content)
    &&& post.payees.deep_view() == cached_payees(content)
    &&& post.currencies@ == pre.currencies@
}

/// No entry occurs twice.
pub open spec fn distinct_seqs(s: Seq<Seq<char>>) -> bool {
    forall|i: int, j: int| 0 <= i < j < s.len() ==> s[i] != s[j]
}

proof fn lemma_push_unique_distinct(s: Seq<Seq<char>>, x: Seq<char>)
    requires
        distinct_seqs(s),
    ensures
        distinct_seqs(push_unique(s, x)),
        push_unique(s, x).contains(x),
    decreases 0int,
{
    if !s.contains(x) {
        let p = s.push(x);
        assert forall|i: int, j: int| 0 <= i < j < p.len() implies p[i] != p[j] by {
            if j == s.len() {
                assert(p[i] == s[i]);
                if s[i] == x {
                    assert(s.contains(x));
                }
            }
        }
        assert(p[s.len() as int] == x);
    }
}

proof fn lemma_accounts_upto_distinct(lines: Seq<Seq<char>>, k: int)
    ensures
        distinct_seqs(accounts_upto(lines, k)),
    decreases k,
{
    if k > 0 {
        lemma_accounts_upto_distinct(lines, k - 1);
        match account_candidate(lines[k - 1]) {
            Some(a) => lemma_push_unique_distinct(accounts_upto(lines, k - 1), a),
            None => {},
        }
    }
}

proof fn lemma_payees_upto_distinct(lines: Seq<Seq<char>>, k: int)
    ensures
        distinct_seqs(payees_upto(lines, k)),
    decreases k,
{
    if k > 0 {
        lemma_payees_upto_distinct(lines, k - 1);
        match payee_candidate(lines[k - 1]) {
            Some(p) => lemma_push_unique_distinct(payees_upto(lines, k - 1), p),
            None => {},
        }
    }
}

/// Each cached account name appears in the rebuilt account cache exactly
/// once, and so does each cached payee.
pub proof fn lemma_cache_entries_distinct(content: Seq<char>)
    ensures
        distinct_seqs(cached_accounts(content)),
        distinct_seqs(cached_payees(content)),
{
    lemma_accounts_upto_distinct(split_lines(content), split_lines(content).len() as int);
    lemma_payees_upto_distinct(split_lines(content), split_lines(content).len() as int);
}

proof fn lemma_accounts_upto_member(lines: Seq<Seq<char>>, k0: int, k: int)
    requires
        0 <= k0 < k <= lines.len(),
        account_candidate(lines[k0]) is Some,
    ensures
        accounts_upto(lines, k).contains(account_candidate(lines[k0]).unwrap()),
    decreases k,
{
    let a = account_candidate(lines[k0]).unwrap();
    if k == k0 + 1 {
        lemma_accounts_upto_distinct(lines, k - 1);
        lemma_push_unique_distinct(accounts_upto(lines, k - 1), a);
    } else {
        lemma_accounts_upto_member(lines, k0, k - 1);
        let prev = accounts_upto(lines, k - 1);
        match account_candidate(lines[k - 1]) {
            Some(b) => {
                if !prev.contains(b) {
                    let i = choose|i: int| 0 <= i < prev.len() && prev[i] == a;
                    assert(prev.push(b)[i] == a);
                }
            },
            None => {},
        }
    }
}

proof fn lemma_payees_upto_member(lines: Seq<Seq<char>>, k0: int, k: int)
    requires
        0 <= k0 < k <= lines.len(),
        payee_candidate(lines[k0]) is Some,
    ensures
        payees_upto(lines, k).contains(payee_candidate(lines[k0]).unwrap()),
    decreases k,
{
    let a = payee_candidate(lines[k0]).unwrap();
    if k == k0 + 1 {
        lemma_payees_upto_distinct(lines, k - 1);
        lemma_push_unique_distinct(payees_upto(lines, k - 1), a);
    } else {
        lemma_payees_upto_member(lines, k0, k - 1);
        let prev = payees_upto(lines, k - 1);
        match payee_candidate(lines[k - 1]) {
            Some(b) => {
                if !prev.contains(b) {
                    let i = choose|i: int| 0 <= i < prev.len() && prev[i] == a;
                    assert(prev.push(b)[i] == a);
                }
            },
            None => {},
        }
    }
}

/// Every account and payee contributed by some line of the content is in
/// the rebuilt caches.
pub proof fn lemma_cache_complete(content: Seq<char>, k: int)
    requires
        0 <= k < split_lines(content).len(),
    ensures
        account_candidate(split_lines(content)[k]) is Some ==> cached_accounts(
            content,
        ).contains(account_candidate(split_lines(content)[k]).unwrap()),
        payee_candidate(split_lines(content)[k]) is Some ==> cached_payees(content).contains(
            payee_candidate(split_lines(content)[k]).unwrap(),
        ),
{
    let lines = split_lines(content);
    if account_candidate(lines[k]) is Some {
        lemma_accounts_upto_member(lines, k, lines.len() as int);
    }
    if payee_candidate(lines[k]) is Some {
        lemma_payees_upto_member(lines, k, lines.len() as int);
    }
}

/// The caches grow by appending only: the entries contributed by the first
/// `k` lines stand unchanged, in the same order, in front of whatever later
/// lines contribute. With `lemma_cache_entries_distinct` this pins the
/// first-appearance order: an entry is appended the first time it is seen
/// and never moves.
pub proof fn lemma_cache_order_stable(lines: Seq<Seq<char>>, k: int)
    ensures
        accounts_upto(lines, k).is_prefix_of(accounts_upto(lines, k + 1)),
        payees_upto(lines, k).is_prefix_of(payees_upto(lines, k + 1)),
{
    let a = accounts_upto(lines, k);
    match account_candidate(lines[k]) {
        Some(x) => {
            if !a.contains(x) {
                assert(a =~= a.push(x).subrange(0, a.len() as int));
            } else {
                assert(a =~= a.subrange(0, a.len() as int));
            }
        },
        None => {
            assert(a =~= a.subrange(0, a.len() as int));
        },
    }
    let p = payees_upto(lines, k);
    match payee_candidate(lines[k]) {
        Some(x) => {
            if !p.contains(x) {
                assert(p =~= p.push(x).subrange(0, p.len() as int));
            } else {
                assert(p =~= p.subrange(0, p.len() as int));
            }
        },
        None => {
            assert(p =~= p.subrange(0, p.len() as int));
        },
    }
}

/// Rebuilding the caches is idempotent: a second update with the same
/// content leaves every cache as the first update made it.
pub proof fn lemma_update_cache_idempotent(
    pre: Assistant,
    mid: Assistant,
    post: Assistant,
    content: Seq<char>,
)
    requires
        cache_rebuilt(pre, mid, content),
        cache_rebuilt(mid, post, content),
    ensures
        post.accounts.deep_view() == mid.accounts.deep_view(),
        post.payees.deep_view() == mid.payees.deep_view(),
        post.currencies@ == mid.currencies@,
{
}

/// Whether the vector holds a string whose characters are `x`.
fn contains_string(v: &Vec<String>, x: &String) -> (r: bool)
    ensures
        r == v.deep_view().contains(x@),
{
    let mut i: usize = 0;
    while i < v.len()
        invariant
            0 <= i <= v@.len(),
            forall|j: int| 0 <= j < i ==> v@[j]@ != x@,
        decreases v@.len() - i,
    {
        if str_eq(v[i].as_str(), x.as_str()) {
            proof {
                assert(v.deep_view()[i as int] == x@);
            }
            return true;
        }
        i += 1;
    }
    proof {
        if v.deep_view().contains(x@) {
            let j = choose|j: int| 0 <= j < v.deep_view().len() && v.deep_view()[j] == x@;
            assert(v@[j]@ == x@);
        }
    }
    false
}

/// The account name one line contributes, if any.
fn account_candidate_exec(line: &str) -> (r: Option<String>)
    ensures
        match r {
            Some(a) => account_candidate(line@) == Some(a@),
            None => account_candidate(line@) is None,
        },
{
    let n = line.unicode_len();
    let ind = n >= 2 && line.get_char(0) == ' ' && line.get_char(1) == ' ';
    if !ind {
        return None;
    }
    if !contains_char(line, ':') {
        return None;
    }
    let s = scan_non_ws_str(line, 2);
    if s == n {
        return None;
    }
    let e = scan_to_ws_str(line, s);
    Some(String::from_str(line.substring_char(s, e)))
}

/// The payee one line contributes, if any.
fn payee_candidate_exec(line: &str) -> (r: Option<String>)
    ensures
        match r {
            Some(p) => payee_candidate(line@) == Some(p@),
            None => payee_candidate(line@) is None,
        },
{
    if !(contains_char(line, '*') || contains_char(line, '!')) {
        return None;
    }
    let n = line.unicode_len();
    match find_char_str(line, '"') {
        None => None,
        Some(q1) => {
            let rest = line.substring_char(q1 + 1, n);
            match find_char_str(rest, '"') {
                None => None,
                Some(q2) => {
                    if q2 == 0 {
                        None
                    } else {
                        Some(String::from_str(rest.substring_char(0, q2)))
                    }
                },
            }
        },
    }
}

impl Assistant {
    /// A fresh assistant: empty account and payee caches, and the fixed
    /// currency list.
    pub fn new() -> (r: Assistant)
        ensures
            r.accounts@.len() == 0,
            r.payees@.len() == 0,
            r.currencies.deep_view() == default_currencies(),
    {
        let mut currencies: Vec<String> = Vec::new();
        currencies.push(String::from_str("USD"));
        currencies.push(String::from_str("EUR"));
        currencies.push(String::from_str("GBP"));
        currencies.push(String::from_str("JPY"));
        currencies.push(String::from_str("CAD"));
        currencies.push(String::from_str("AUD"));
        currencies.push(String::from_str("BTC"));
        currencies.push(String::from_str("ETH"));
        currencies.push(String::from_str("AAPL"));
        proof {
            assert(currencies.deep_view() =~= default_currencies());
        }
        Assistant { accounts: Vec::new(), payees: Vec::new(), currencies }
    }

    /// Rebuilds both caches from scratch out of the given text: each line
    /// indented as a posting and holding a colon contributes its first
    /// token as an account, and each flagged line contributes the text
    /// between its first two quotes as a payee, both deduplicated in order
    /// of first appearance.
    pub fn update_cache(&mut self, content: &str)
        ensures
            cache_rebuilt(*old(self), *final(self), content@),
    {
        let lines = split_lines_str(content);
        let ghost lv = split_lines(content@);
        let mut accounts: Vec<String> = Vec::new();
        let mut payees: Vec<String> = Vec::new();
        let mut i: usize = 0;
        proof {
            assert(lines@.len() == lv.len());
        }
        while i < lines.len()
            invariant
                lines.deep_view() == lv,
                lines@.len() == lv.len(),
                0 <= i <= lines@.len(),
                accounts.deep_view() == accounts_upto(lv, i as int),
                payees.deep_view() == payees_upto(lv, i as int),
            decreases lines@.len() - i,
        {
            proof {
                assert(lines@[i as int]@ == lv[i as int]);
            }
            let ghost prev_accounts = accounts.deep_view();
            let ghost prev_payees = payees.deep_view();
            if let Some(a) = account_candidate_exec(lines[i]) {
                if !contains_string(&accounts, &a) {
                    accounts.push(a);
                    proof {
                        assert(accounts.deep_view() =~= prev_accounts.push(a@));
                    }
                }
            }
            if let Some(p) = payee_candidate_exec(lines[i]) {
                if !contains_string(&payees, &p) {
                    payees.push(p);
                    proof {
                        assert(payees.deep_view() =~= prev_payees.push(p@));
                    }
                }
            }
            i += 1;
        }
        self.accounts = accounts;
        self.payees = payees;
    }
}

impl Default for Assistant {
    /// The same fresh assistant as `Assistant::new`.
    fn default() -> (r: Assistant)
        ensures
            r.accounts@.len() == 0,
            r.payees@.len() == 0,
            r.currencies.deep_view() == default_currencies(),
    {
        Assistant::new()
    }
}

} // verus!
