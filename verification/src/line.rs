//! The log line wire format.
//!
//! Every line ends in a comma-separated suffix whose field order is a
//! stable contract for downstream log consumers. Two variants exist:
//! a compact one (`,tag,length,begin,end,count,bytes_total`) and a
//! verbose one that prefixes a human-readable sentence and additionally
//! carries the requested length
//! (`,tag,begin,end,length,request_length,count,bytes_total`).

use crate::digits::{dec_str, push_dec};
use vstd::prelude::*;
use vstd::string::StringExecFns;

verus! {

/// The end offset reported by the compact variant: one past the last byte.
pub open spec fn compact_end(begin: nat, length: nat) -> nat {
    begin + length
}

/// The end offset reported by the verbose variant: the last byte read,
/// clamped so that a zero-length read at offset zero does not underflow.
pub open spec fn verbose_end(begin: nat, length: nat) -> nat {
    if begin + length >= 1 {
        (begin + length - 1) as nat
    } else {
        0
    }
}

/// The compact header line: a schema row naming the data fields.
pub open spec fn compact_header() -> Seq<char> {
    ",tag,length,begin,end,count,bytes_total"@
}

/// The compact data line for one read.
pub open spec fn compact_data(tag: Seq<char>, begin: nat, length: nat, count: nat, total: nat) -> Seq<char> {
    ","@ + tag + ","@ + dec_str(length) + ","@ + dec_str(begin) + ","@ + dec_str(
        compact_end(begin, length),
    ) + ","@ + dec_str(count) + ","@ + dec_str(total)
}

/// The verbose header line: a human-readable prefix naming the tag,
/// then the schema row for the data fields.
pub open spec fn verbose_header(tag: Seq<char>) -> Seq<char> {
    "Initialize Read logger `"@ + tag + "`,tag,begin,end,length,request_length,count,bytes_total"@
}

/// The verbose data line for one read: a human-readable sentence,
/// then the comma-separated fields.
pub open spec fn verbose_data(
    tag: Seq<char>,
    begin: nat,
    length: nat,
    request_length: nat,
    count: nat,
    total: nat,
) -> Seq<char> {
    "Read "@ + dec_str(begin) + "-"@ + dec_str(verbose_end(begin, length)) + " ("@ + dec_str(
        length,
    ) + " bytes). Total requests: "@ + dec_str(count) + " ("@ + dec_str(total) + " bytes),"@ + tag
        + ","@ + dec_str(begin) + ","@ + dec_str(verbose_end(begin, length)) + ","@ + dec_str(
        length,
    ) + ","@ + dec_str(request_length) + ","@ + dec_str(count) + ","@ + dec_str(total)
}

/// Builds the compact header line.
pub fn build_compact_header() -> (r: String)
    ensures
        r@ == compact_header(),
{
    String::from_str(",tag,length,begin,end,count,bytes_total")
}

/// Builds the compact data line for one read.
pub fn build_compact_data(tag: &str, begin: usize, length: usize, count: usize, total: usize) -> (r:
    String)
    requires
        begin + length <= usize::MAX,
    ensures
        r@ == compact_data(tag@, begin as nat, length as nat, count as nat, total as nat),
{
    let mut r = String::new();
    r.append(",");
    r.append(tag);
    r.append(",");
    push_dec(&mut r, length);
    r.append(",");
    push_dec(&mut r, begin);
    r.append(",");
    push_dec(&mut r, begin + length);
    r.append(",");
    push_dec(&mut r, count);
    r.append(",");
    push_dec(&mut r, total);
    proof {
        assert(r@ =~= compact_data(tag@, begin as nat, length as nat, count as nat, total as nat));
    }
    r
}

/// Builds the verbose header line.
pub fn build_verbose_header(tag: &str) -> (r: String)
    ensures
        r@ == verbose_header(tag@),
{
    let mut r = String::new();
    r.append("Initialize Read logger `");
    r.append(tag);
    r.append("`,tag,begin,end,length,request_length,count,bytes_total");
    proof {
        assert(r@ =~= verbose_header(tag@));
    }
    r
}

/// Builds the verbose data line for one read.
pub fn build_verbose_data(
    tag: &str,
    begin: usize,
    length: usize,
    request_length: usize,
    count: usize,
    total: usize,
) -> (r: String)
    requires
        begin + length <= usize::MAX,
    ensures
        r@ == verbose_data(
            tag@,
            begin as nat,
            length as nat,
            request_length as nat,
            count as nat,
            total as nat,
        ),
{
    let sum = begin + length;
    let end = if sum > 0 {
        sum - 1
    } else {
        0
    };
    let mut r = String::new();
    r.append("Read ");
    push_dec(&mut r, begin);
    r.append("-");
    push_dec(&mut r, end);
    r.append(" (");
    push_dec(&mut r, length);
    r.append(" bytes). Total requests: ");
    push_dec(&mut r, count);
    r.append(" (");
    push_dec(&mut r, total);
    r.append(" bytes),");
    r.append(tag);
    r.append(",");
    push_dec(&mut r, begin);
    r.append(",");
    push_dec(&mut r, end);
    r.append(",");
    push_dec(&mut r, length);
    r.append(",");
    push_dec(&mut r, request_length);
    r.append(",");
    push_dec(&mut r, count);
    r.append(",");
    push_dec(&mut r, total);
    proof {
        assert(r@ =~= verbose_data(
            tag@,
            begin as nat,
            length as nat,
            request_length as nat,
            count as nat,
            total as nat,
        ));
    }
    r
}

} // verus!
