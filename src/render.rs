use vstd::prelude::*;

use crate::call_site::CallSite;

verus! {

/// The character of the decimal digit `d` (for `d < 10`).
pub open spec fn digit_char(d: nat) -> char {
    seq!['0', '1', '2', '3', '4', '5', '6', '7', '8', '9'][d as int]
}

/// The decimal notation of `n`, without sign or leading zeros.
pub open spec fn decimal(n: nat) -> Seq<char>
    decreases n,
{
    if n < 10 {
        seq![digit_char(n)]
    } else {
        decimal(n / 10).push(digit_char(n % 10))
    }
}

/// The line printed for one site: `At (line:col) in file`, then a newline.
pub open spec fn site_line(s: CallSite) -> Seq<char> {
    "At ("@ + decimal(s.line_spec() as nat) + ":"@ + decimal(s.column_spec() as nat) + ") in "@
        + s.file_spec() + "\n"@
}

/// One line per site of `trace`, the newest (last) site first.
pub open spec fn trace_lines(trace: Seq<CallSite>) -> Seq<char>
    decreases trace.len(),
{
    if trace.len() == 0 {
        Seq::empty()
    } else {
        site_line(trace.last()) + trace_lines(trace.drop_last())
    }
}

fn digit_str(d: u32) -> (r: &'static str)
    requires
        d < 10,
    ensures
        r@ == seq![digit_char(d as nat)],
{
    proof {
        reveal_strlit("0");
        reveal_strlit("1");
        reveal_strlit("2");
        reveal_strlit("3");
        reveal_strlit("4");
        reveal_strlit("5");
        reveal_strlit("6");
        reveal_strlit("7");
        reveal_strlit("8");
        reveal_strlit("9");
    }
    match d {
        0 => "0",
        1 => "1",
        2 => "2",
        3 => "3",
        4 => "4",
        5 => "5",
        6 => "6",
        7 => "7",
        8 => "8",
        _ => "9",
    }
}

/// Appends the decimal notation of `n` to `out`.
fn push_decimal(out: &mut String, n: u32)
    ensures
        final(out)@ == old(out)@ + decimal(n as nat),
    decreases n,
{
    if n >= 10 {
        push_decimal(out, n / 10);
    }
    out.append(digit_str(n % 10));
    assert(final(out)@ =~= old(out)@ + decimal(n as nat));
}

/// Appends the line of `site` to `out`.
pub(crate) fn push_site_line(out: &mut String, site: &CallSite)
    ensures
        final(out)@ == old(out)@ + site_line(*site),
{
    out.append("At (");
    push_decimal(out, site.line());
    out.append(":");
    push_decimal(out, site.column());
    out.append(") in ");
    out.append(site.file());
    out.append("\n");
    assert(final(out)@ =~= old(out)@ + site_line(*site));
}

} // verus!
