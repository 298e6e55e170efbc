//! Line-by-line structural checks of ledger text. Blank lines and comment
//! lines are skipped; every other line is held to each applicable check, and
//! the findings come back in line order, and within a line in check order:
//! transaction flag, date shape, quote balance, account-name case,
//! account-name characters.

use vstd::prelude::*;
use vstd::string::StrSliceExecFns;
use crate::text::count_upto;
use crate::text::find_char;
use crate::text::has_char;
use crate::text::is_alnum;
use crate::text::is_digit;
use crate::text::is_upper;
use crate::text::run_start;
use crate::text::scan_to_ws;
use crate::text::split_lines;
use crate::text::starts_with;
use crate::text::trim_spec;
use crate::text::contains_char;
use crate::text::count_char_str;
use crate::text::find_char_str;
use crate::text::is_alnum_char;
use crate::text::is_digit_char;
use crate::text::is_upper_char;
use crate::text::lemma_find_char;
use crate::text::run_start_str;
use crate::text::scan_to_ws_str;
use crate::text::split_lines_str;
use crate::text::starts_with_str;
use crate::text::trim_str;

verus! {

/// What a single finding complains about.
#[derive(Clone, Copy, PartialEq, Eq, Structural, Debug)]
pub enum ErrorKind {
    /// A dated entry has neither a `*` nor a `!` flag.
    MissingFlag,
    /// A dated entry does not start with a `YYYY-MM-DD` date.
    BadDate,
    /// A line holds an odd number of double quotes.
    UnbalancedQuotes,
    /// An account name does not start with an upper-case letter.
    AccountCase,
    /// An account name holds a character that is neither alphanumeric nor a
    /// colon nor a hyphen.
    AccountChar,
}

/// One finding: the 1-indexed line it was made on, and what it complains
/// about.
#[derive(Clone, Copy, PartialEq, Eq, Structural, Debug)]
pub struct ValidationError {
    pub line: usize,
    pub kind: ErrorKind,
}

pub open spec fn message_spec(k: ErrorKind) -> Seq<char> {
    match k {
        ErrorKind::MissingFlag => "Missing transaction flag (* or !)"@,
        ErrorKind::BadDate => "Invalid date format. Use YYYY-MM-DD"@,
        ErrorKind::UnbalancedQuotes => "Unbalanced quotes"@,
        ErrorKind::AccountCase => "Account name should start with an uppercase letter"@,
        ErrorKind::AccountChar => "Account name contains invalid characters"@,
    }
}

impl ValidationError {
    /// A short description of the finding.
    pub fn message(&self) -> (r: &'static str)
        ensures
            r@ == message_spec(self.kind),
    {
        match self.kind {
            ErrorKind::MissingFlag => "Missing transaction flag (* or !)",
            ErrorKind::BadDate => "Invalid date format. Use YYYY-MM-DD",
            ErrorKind::UnbalancedQuotes => "Unbalanced quotes",
            ErrorKind::AccountCase => "Account name should start with an uppercase letter",
            ErrorKind::AccountChar => "Account name contains invalid characters",
        }
    }
}

/// Whether the trimmed line looks like a dated entry: it starts with a
/// digit and is long enough to hold a full date.
pub open spec fn is_dated(t: Seq<char>) -> bool {
    t.len() >= 10 && is_digit(t[0])
}

/// Whether the line carries a transaction flag.
pub open spec fn has_flag(t: Seq<char>) -> bool {
    has_char(t, '*') || has_char(t, '!')
}

/// Whether the first ten characters of `t` form a `YYYY-MM-DD` shaped
/// date.
pub open spec fn date_shape(t: Seq<char>) -> bool {
    &&& t.len() >= 10
    &&& is_digit(t[0])
    &&& is_digit(t[1])
    &&& is_digit(t[2])
    &&& is_digit(t[3])
    &&& t[4] == '-'
    &&& is_digit(t[5])
    &&& is_digit(t[6])
    &&& t[7] == '-'
    &&& is_digit(t[8])
    &&& is_digit(t[9])
}

/// Whether the raw line is indented by at least two spaces.
pub open spec fn indented(raw: Seq<char>) -> bool {
    raw.len() >= 2 && raw[0] == ' ' && raw[1] == ' '
}

/// Whether the account-name checks apply to the line: its trimmed form
/// holds a colon, the raw line is not indented as a posting, and the line is
/// not an options directive.
pub open spec fn account_checked(raw: Seq<char>) -> bool {
    has_char(trim_spec(raw), ':') && !indented(raw) && !starts_with(trim_spec(raw), "option"@)
}

/// The candidate account name of a trimmed line that holds a colon: the
/// whitespace-delimited token around the first colon.
pub open spec fn colon_token(t: Seq<char>) -> Seq<char> {
    let ci = find_char(t, ':');
    t.subrange(run_start(t, ci), scan_to_ws(t, ci))
}

/// Whether every character of a candidate account name is acceptable:
/// alphanumeric, a colon, or a hyphen.
pub open spec fn account_chars_ok(tok: Seq<char>) -> bool {
    forall|i: int| 0 <= i < tok.len() ==> is_alnum(#[trigger] tok[i]) || tok[i] == ':' || tok[i] == '-'
}

/// All findings for one raw line with the given 1-indexed number.
pub open spec fn check_line(raw: Seq<char>, num: usize) -> Seq<ValidationError> {
    let t = trim_spec(raw);
    if t.len() == 0 || t[0] == ';' {
        Seq::empty()
    } else {
        (if is_dated(t) && !has_flag(t) {
            seq![ValidationError { line: num, kind: ErrorKind::MissingFlag }]
        } else {
            Seq::empty()
        }) + (if is_dated(t) && !date_shape(t) {
            seq![ValidationError { line: num, kind: ErrorKind::BadDate }]
        } else {
            Seq::empty()
        }) + (if count_upto(t, '"', t.len() as int) % 2 == 1 {
            seq![ValidationError { line: num, kind: ErrorKind::UnbalancedQuotes }]
        } else {
            Seq::empty()
        }) + (if account_checked(raw) && !is_upper(colon_token(t)[0]) {
            seq![ValidationError { line: num, kind: ErrorKind::AccountCase }]
        } else {
            Seq::empty()
        }) + (if account_checked(raw) && !account_chars_ok(colon_token(t)) {
            seq![ValidationError { line: num, kind: ErrorKind::AccountChar }]
        } else {
            Seq::empty()
        })
    }
}

/// The findings of the first `k` lines, in order.
pub open spec fn errors_upto(lines: Seq<Seq<char>>, k: int) -> Seq<ValidationError>
    decreases k,
{
    if k <= 0 {
        Seq::empty()
    } else {
        errors_upto(lines, k - 1) + check_line(lines[k - 1], k as usize)
    }
}

/// All findings for a whole text.
pub open spec fn validate_spec(content: Seq<char>) -> Seq<ValidationError> {
    validate_lines_spec(split_lines(content))
}

/// All findings for a sequence of lines.
pub open spec fn validate_lines_spec(lines: Seq<Seq<char>>) -> Seq<ValidationError> {
    errors_upto(lines, lines.len() as int)
}

/// All findings for one line, in check order.
fn check_line_exec(raw: &str, num: usize) -> (r: Vec<ValidationError>)
    ensures
        r@ == check_line(raw@, num),
{
    let mut found: Vec<ValidationError> = Vec::new();
    let t = trim_str(raw);
    let tn = t.unicode_len();
    if tn == 0 {
        return found;
    }
    if t.get_char(0) == ';' {
        return found;
    }
    let ghost tv = t@;
    let dated = tn >= 10 && is_digit_char(t.get_char(0));
    if dated {
        if !(contains_char(t, '*') || contains_char(t, '!')) {
            found.push(ValidationError { line: num, kind: ErrorKind::MissingFlag });
        }
        let shape_ok = is_digit_char(t.get_char(0)) && is_digit_char(t.get_char(1))
            && is_digit_char(t.get_char(2)) && is_digit_char(t.get_char(3))
            && t.get_char(4) == '-' && is_digit_char(t.get_char(5)) && is_digit_char(t.get_char(6))
            && t.get_char(7) == '-' && is_digit_char(t.get_char(8)) && is_digit_char(t.get_char(9));
        if !shape_ok {
            found.push(ValidationError { line: num, kind: ErrorKind::BadDate });
        }
    }
    let quotes = count_char_str(t, '"');
    if quotes % 2 == 1 {
        found.push(ValidationError { line: num, kind: ErrorKind::UnbalancedQuotes });
    }
    let rn = raw.unicode_len();
    let raw_indented = rn >= 2 && raw.get_char(0) == ' ' && raw.get_char(1) == ' ';
    let checked = contains_char(t, ':') && !raw_indented && !starts_with_str(t, "option");
    assert(checked == account_checked(raw@));
    if checked {
        match find_char_str(t, ':') {
            Some(ci) => {
                let s = run_start_str(t, ci);
                let e = scan_to_ws_str(t, ci);
                proof {
                    lemma_find_char(tv, ':');
                    assert(tv[ci as int] == ':');
                    crate::text::lemma_scan_to_ws_bounds(tv, ci + 1);
                    assert(scan_to_ws(tv, ci as int) == scan_to_ws(tv, ci + 1));
                    assert(scan_to_ws(tv, ci as int) > ci);
                    assert(colon_token(tv) == tv.subrange(s as int, e as int));
                }
                if !is_upper_char(t.get_char(s)) {
                    proof {
                        assert(colon_token(tv)[0] == tv[s as int]);
                    }
                    found.push(ValidationError { line: num, kind: ErrorKind::AccountCase });
                } else {
                    proof {
                        assert(colon_token(tv)[0] == tv[s as int]);
                    }
                }
                let mut k: usize = s;
                let mut ok = true;
                while k < e
                    invariant
                        s <= k <= e,
                        e <= tv.len(),
                        tv == t@,
                        ok == forall|j: int|
                            s <= j < k ==> is_alnum(#[trigger] tv[j]) || tv[j] == ':' || tv[j]
                                == '-',
                    decreases e - k,
                {
                    let c = t.get_char(k);
                    if !(is_alnum_char(c) || c == ':' || c == '-') {
                        ok = false;
                        k = e;
                    } else {
                        k += 1;
                    }
                }
                proof {
                    let tok = colon_token(tv);
                    assert forall|j: int| 0 <= j < tok.len() implies tok[j] == tv[s + j] by {}
                    if ok {
                        assert forall|j: int|
                            0 <= j < tok.len() implies is_alnum(#[trigger] tok[j]) || tok[j] == ':'
                            || tok[j] == '-' by {
                            assert(tok[j] == tv[s + j]);
                        }
                        assert(account_chars_ok(tok));
                    } else {
                        let j = choose|j: int|
                            s <= j < e && !(is_alnum(#[trigger] tv[j]) || tv[j] == ':' || tv[j]
                                == '-');
                        assert(tok[j - s] == tv[j]);
                        assert(!account_chars_ok(tok));
                    }
                }
                if !ok {
                    found.push(ValidationError { line: num, kind: ErrorKind::AccountChar });
                }
            },
            None => {
                proof {
                    lemma_find_char(tv, ':');
                    assert(false);
                }
            },
        }
    }
    proof {
        assert(found@ =~= check_line(raw@, num));
    }
    found
}

/// Validates ledger text line by line and returns every finding, in line
/// order, each carrying its 1-indexed line number.
pub fn validate_beancount_file(content: &str) -> (r: Vec<ValidationError>)
    ensures
        r@ == validate_spec(content@),
{
    let lines = split_lines_str(content);
    let ghost lv = split_lines(content@);
    let mut out: Vec<ValidationError> = Vec::new();
    let mut i: usize = 0;
    proof {
        assert(lines@.len() == lv.len());
    }
    while i < lines.len()
        invariant
            lines.deep_view() == lv,
            lines@.len() == lv.len(),
            0 <= i <= lines@.len(),
            out@ == errors_upto(lv, i as int),
        decreases lines@.len() - i,
    {
        let mut es = check_line_exec(lines[i], i + 1);
        proof {
            assert(lines@[i as int]@ == lv[i as int]);
        }
        out.append(&mut es);
        i += 1;
    }
    out
}

} // verus!
