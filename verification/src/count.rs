//! The result record of a measurement run and its rendering.
//!
//! A `Count` maps each measurement kind to an optional count; a kind left
//! at `None` was not requested. Rendering lists the populated counts in
//! the fixed display order lines, words, bytes, chars, separated by
//! single spaces.

use vstd::prelude::*;
use vstd::string::StringExecFns;

verus! {

/// The decimal digit character for a value below ten.
pub open spec fn digit_char(d: int) -> char {
    if d == 0 {
        '0'
    } else if d == 1 {
        '1'
    } else if d == 2 {
        '2'
    } else if d == 3 {
        '3'
    } else if d == 4 {
        '4'
    } else if d == 5 {
        '5'
    } else if d == 6 {
        '6'
    } else if d == 7 {
        '7'
    } else if d == 8 {
        '8'
    } else {
        '9'
    }
}

/// The decimal representation of a non-negative integer, without sign,
/// without leading zeros (a single `'0'` for zero).
pub open spec fn dec_str(n: nat) -> Seq<char>
    decreases n,
{
    if n < 10 {
        seq![digit_char(n as int)]
    } else {
        dec_str(n / 10) + seq![digit_char((n % 10) as int)]
    }
}

/// Returns the one-character string for a decimal digit.
fn digit_string(d: usize) -> (r: String)
    requires
        d < 10,
    ensures
        r@ =~= seq![digit_char(d as int)],
{
    proof {
        reveal_strlit("0");
        reveal_strlit("1");
        reveal_strlit("2");
        reveal_strlit("3");
        reveal_strlit("4");
        reveal_strlit("5");
        reveal_strlit("6");
        reveal_strlit("7");
        reveal_strlit("8");
        reveal_strlit("9");
    }
    let s: &str = if d == 0 {
        "0"
    } else if d == 1 {
        "1"
    } else if d == 2 {
        "2"
    } else if d == 3 {
        "3"
    } else if d == 4 {
        "4"
    } else if d == 5 {
        "5"
    } else if d == 6 {
        "6"
    } else if d == 7 {
        "7"
    } else if d == 8 {
        "8"
    } else {
        "9"
    };
    s.to_owned()
}

/// Returns the decimal representation of `n`.
pub fn decimal_string(n: usize) -> (r: String)
    ensures
        r@ == dec_str(n as nat),
    decreases n,
{
    if n < 10 {
        digit_string(n)
    } else {
        let prefix = decimal_string(n / 10);
        let last = digit_string(n % 10);
        prefix.concat(last.as_str())
    }
}

/// One optional count per measurement kind; `None` marks a kind that was
/// not requested.
pub struct Count {
    pub bytes: Option<usize>,
    pub chars: Option<usize>,
    pub lines: Option<usize>,
    pub words: Option<usize>,
}

/// `acc` extended with one more rendered count: unchanged for an absent
/// entry, otherwise the entry's decimal form, preceded by a single space
/// when `acc` is non-empty.
pub open spec fn joined_with(acc: Seq<char>, entry: Option<usize>) -> Seq<char> {
    match entry {
        Option::None => acc,
        Option::Some(n) => if acc.len() == 0 {
            dec_str(n as nat)
        } else {
            acc + seq![' '] + dec_str(n as nat)
        },
    }
}

impl Count {
    /// The populated counts in the fixed display order lines, words,
    /// bytes, chars, separated by single spaces.
    pub open spec fn rendered(self) -> Seq<char> {
        joined_with(
            joined_with(joined_with(joined_with(Seq::empty(), self.lines), self.words), self.bytes),
            self.chars,
        )
    }

    /// Whether no measurement kind is populated.
    pub open spec fn spec_is_empty(self) -> bool {
        self.bytes is None && self.chars is None && self.lines is None && self.words is None
    }

    /// Returns a record with no kind populated.
    pub fn new() -> (r: Self)
        ensures
            r.bytes is None,
            r.chars is None,
            r.lines is None,
            r.words is None,
    {
        Self { bytes: None, chars: None, lines: None, words: None }
    }

    /// Returns whether no measurement kind is populated.
    pub fn is_empty(&self) -> (r: bool)
        ensures
            r == self.spec_is_empty(),
    {
        self.bytes.is_none() && self.chars.is_none() && self.lines.is_none()
            && self.words.is_none()
    }

    /// Returns the rendered counts, in the fixed display order.
    pub fn to_string(&self) -> (r: String)
        ensures
            r@ == self.rendered(),
    {
        let mut result = String::new();
        let ghost acc0 = result@;
        if let Some(line_count) = self.lines {
            add_whitespace_if_not_empty(&mut result);
            let num = decimal_string(line_count);
            result.append(num.as_str());
        }
        proof {
            assert(result@ =~= joined_with(acc0, self.lines));
        }
        let ghost acc1 = result@;
        if let Some(word_count) = self.words {
            add_whitespace_if_not_empty(&mut result);
            let num = decimal_string(word_count);
            result.append(num.as_str());
        }
        proof {
            assert(result@ =~= joined_with(acc1, self.words));
        }
        let ghost acc2 = result@;
        if let Some(byte_count) = self.bytes {
            add_whitespace_if_not_empty(&mut result);
            let num = decimal_string(byte_count);
            result.append(num.as_str());
        }
        proof {
            assert(result@ =~= joined_with(acc2, self.bytes));
        }
        let ghost acc3 = result@;
        if let Some(char_count) = self.chars {
            add_whitespace_if_not_empty(&mut result);
            let num = decimal_string(char_count);
            result.append(num.as_str());
        }
        proof {
            assert(result@ =~= joined_with(acc3, self.chars));
        }
        result
    }
}

/// Appends a single space to a non-empty buffer; leaves an empty buffer
/// unchanged.
pub fn add_whitespace_if_not_empty(result: &mut String)
    ensures
        final(result)@ == if old(result)@.len() == 0 {
            old(result)@
        } else {
            old(result)@ + seq![' ']
        },
{
    if !result.as_str().is_empty() {
        proof {
            reveal_strlit(" ");
        }
        result.append(" ");
        proof {
            assert(result@ =~= old(result)@ + seq![' ']);
        }
    }
}

} // verus!
