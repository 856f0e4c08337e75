use vstd::prelude::*;

use crate::stats::CopyStats;

verus! {

/// The character of a decimal digit.
pub open spec fn digit_char(d: nat) -> char {
    if d == 0 {
        '0'
    } else if d == 1 {
        '1'
    } else if d == 2 {
        '2'
    } else if d == 3 {
        '3'
    } else if d == 4 {
        '4'
    } else if d == 5 {
        '5'
    } else if d == 6 {
        '6'
    } else if d == 7 {
        '7'
    } else if d == 8 {
        '8'
    } else {
        '9'
    }
}

/// A number written in decimal, without leading zeros.
pub open spec fn decimal(n: nat) -> Seq<char>
    decreases n,
{
    if n < 10 {
        seq![digit_char(n)]
    } else {
        decimal(n / 10).push(digit_char(n % 10))
    }
}

/// The text of one decimal digit.
fn digit_text(d: usize) -> (r: &'static str)
    requires
        d < 10,
    ensures
        r@ == seq![digit_char(d as nat)],
{
    proof {
        reveal_strlit("0");
        reveal_strlit("1");
        reveal_strlit("2");
        reveal_strlit("3");
        reveal_strlit("4");
        reveal_strlit("5");
        reveal_strlit("6");
        reveal_strlit("7");
        reveal_strlit("8");
        reveal_strlit("9");
    }
    let r = if d == 0 {
        "0"
    } else if d == 1 {
        "1"
    } else if d == 2 {
        "2"
    } else if d == 3 {
        "3"
    } else if d == 4 {
        "4"
    } else if d == 5 {
        "5"
    } else if d == 6 {
        "6"
    } else if d == 7 {
        "7"
    } else if d == 8 {
        "8"
    } else {
        "9"
    };
    assert(r@ =~= seq![digit_char(d as nat)]);
    r
}

/// A count written in decimal.
pub fn decimal_text(n: usize) -> (r: String)
    ensures
        r@ == decimal(n as nat),
    decreases n,
{
    if n < 10 {
        String::from_str(digit_text(n))
    } else {
        let head = decimal_text(n / 10);
        let r = head.concat(digit_text(n % 10));
        assert(r@ =~= decimal(n as nat));
        r
    }
}

/// A byte count as humansize writes it in binary-prefixed units.
pub uninterp spec fn binary_size_text(bytes: u64) -> Seq<char>;

/// Relies on humansize::format_size with the BINARY options: the byte count in
/// binary-prefixed units (B, KiB, MiB, ...), which depends on the count alone.
#[verifier::external_body]
fn size_text(bytes: u64) -> (r: String)
    ensures
        r@ == binary_size_text(bytes),
{
    humansize::format_size(bytes, humansize::BINARY)
}

/// The one-line report of a copy, from its size text, its file count and its rate.
pub open spec fn summary_of(size: Seq<char>, files: nat, rate: Seq<char>) -> Seq<char> {
    "Copied "@ + size + " in "@ + decimal(files) + " files ("@ + rate + " MB/s)"@
}

/// Writes the one-line report of a copy: `Copied <size> in <files> files (<rate> MB/s)`.
pub fn summary_text(size: &str, files: usize, rate: &str) -> (r: String)
    ensures
        r@ == summary_of(size@, files as nat, rate@),
{
    let count = decimal_text(files);
    let r = String::from_str("Copied ");
    let r = r.concat(size);
    let r = r.concat(" in ");
    let r = r.concat(count.as_str());
    let r = r.concat(" files (");
    let r = r.concat(rate);
    r.concat(" MB/s)")
}

impl CopyStats {
    /// The one-line report of this copy, with its size in binary-prefixed units and
    /// the rate as given (megabytes per second, already written out).
    pub fn format_summary(&self, rate: &str) -> (r: String)
        ensures
            r@ == summary_of(binary_size_text(self.bytes_copied), self.files_copied as nat, rate@),
    {
        let size = size_text(self.bytes_copied);
        summary_text(size.as_str(), self.files_copied, rate)
    }
}

} // verus!
